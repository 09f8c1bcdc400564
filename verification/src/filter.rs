//! The filter engine: a record is admitted by three independent dimensions —
//! tag patterns, message patterns and a minimum severity level. A pattern
//! prefixed with `!` is negated: its match vetoes the record regardless of
//! any positive pattern.

use vstd::prelude::*;
use vstd::string::StrSliceExecFns;
use vstd::string::StringExecFns;

use crate::record::Level;
use crate::record::Record;

verus! {

#[verifier::external_type_specification]
#[verifier::external_body]
pub struct ExRegex(regex::Regex);

/// Whether `regex::Regex::new` accepts a pattern; acceptance is a function
/// of the pattern text alone.
pub uninterp spec fn re_ok(pattern: Seq<char>) -> bool;

/// The pattern text a compiled `regex::Regex` was built from (what
/// `Regex::as_str` returns).
pub uninterp spec fn re_pattern(re: regex::Regex) -> Seq<char>;

/// Whether a pattern matches anywhere in a text: what `Regex::is_match`
/// returns, a function of the pattern text and the haystack alone.
pub uninterp spec fn re_match(pattern: Seq<char>, text: Seq<char>) -> bool;

/// Relies on `regex::Regex::new`: it succeeds or fails depending on the
/// pattern alone, and the compiled value remembers the pattern it was built
/// from.
#[verifier::external_body]
fn regex_new(pattern: &str) -> (r: Option<regex::Regex>)
    ensures
        r is Some <==> re_ok(pattern@),
        r matches Some(re) ==> re_pattern(re) == pattern@,
{
    regex::Regex::new(pattern).ok()
}

/// Relies on `regex::Regex::is_match`: a deterministic function of the
/// compiled pattern and the haystack.
#[verifier::external_body]
fn regex_is_match(re: &regex::Regex, text: &str) -> (r: bool)
    ensures
        r == re_match(re_pattern(*re), text@),
{
    re.is_match(text)
}

/// True of a raw pattern that carries the negation prefix `!`.
pub open spec fn pattern_negated(s: Seq<char>) -> bool {
    s.len() > 0 && s[0] == '!'
}

/// The raw pattern with the negation prefix removed.
pub open spec fn pattern_body(s: Seq<char>) -> Seq<char> {
    if pattern_negated(s) {
        s.subrange(1, s.len() as int)
    } else {
        s
    }
}

/// The model of one pattern: its regular-expression text and its negation
/// flag.
pub open spec fn spec_pattern_of(s: Seq<char>) -> (Seq<char>, bool) {
    (pattern_body(s), pattern_negated(s))
}

/// One compiled tag or message pattern. Built only by [`Pattern::compile`],
/// so the compiled expression always belongs to the remembered text.
pub struct Pattern {
    re: regex::Regex,
    pattern: String,
    negated: bool,
}

impl View for Pattern {
    type V = (Seq<char>, bool);

    closed spec fn view(&self) -> (Seq<char>, bool) {
        (self.pattern@, self.negated)
    }
}

impl Pattern {
    /// The compiled expression was built from the remembered pattern text.
    pub closed spec fn wf(self) -> bool {
        re_pattern(self.re) == self.pattern@
    }

    /// Compiles one raw pattern, honouring the `!` negation prefix.
    pub fn compile(raw: &str) -> (r: Option<Pattern>)
        ensures
            r is Some <==> re_ok(pattern_body(raw@)),
            r matches Some(p) ==> p.wf() && p@ == spec_pattern_of(raw@),
    {
        let n = raw.unicode_len();
        let negated = n > 0 && raw.get_char(0) == '!';
        let body = if negated {
            String::from_str(raw.substring_char(1, n))
        } else {
            raw.to_owned()
        };
        match regex_new(body.as_str()) {
            Some(re) => Some(Pattern { re, pattern: body, negated }),
            None => None,
        }
    }

    /// Whether the pattern's expression matches anywhere in `text`.
    pub fn matches(&self, text: &str) -> (r: bool)
        requires
            self.wf(),
        ensures
            r == re_match(self@.0, text@),
    {
        regex_is_match(&self.re, text)
    }

    /// Whether a match of this pattern vetoes the record.
    pub fn is_negated(&self) -> (r: bool)
        ensures
            r == self@.1,
    {
        self.negated
    }
}

/// The model of one filter dimension: a sequence of (pattern text, negated)
/// pairs.
pub open spec fn pats_view(ps: Seq<Pattern>) -> Seq<(Seq<char>, bool)> {
    ps.map_values(|p: Pattern| p@)
}

/// Some negated pattern of the dimension matches the text: the record is
/// vetoed.
pub open spec fn dim_vetoed(pats: Seq<(Seq<char>, bool)>, text: Seq<char>) -> bool {
    exists|i: int| 0 <= i < pats.len() && pats[i].1 && re_match(pats[i].0, text)
}

/// The dimension holds at least one positive (non-negated) pattern.
pub open spec fn dim_has_positive(pats: Seq<(Seq<char>, bool)>) -> bool {
    exists|i: int| 0 <= i < pats.len() && !pats[i].1
}

/// Some positive pattern of the dimension matches the text.
pub open spec fn dim_pos_match(pats: Seq<(Seq<char>, bool)>, text: Seq<char>) -> bool {
    exists|i: int| 0 <= i < pats.len() && !pats[i].1 && re_match(pats[i].0, text)
}

/// One dimension passes: no negated pattern matches (negation is a veto that
/// overrides any positive match), and if the dimension has positive patterns
/// at all, one of them matches.
pub open spec fn dim_passes(pats: Seq<(Seq<char>, bool)>, text: Seq<char>) -> bool {
    !dim_vetoed(pats, text) && (dim_has_positive(pats) ==> dim_pos_match(pats, text))
}

/// The model of a whole filter configuration.
pub ghost struct FilterModel {
    pub tag: Seq<(Seq<char>, bool)>,
    pub msg: Seq<(Seq<char>, bool)>,
    pub min_level: Level,
}

/// A record is accepted when it passes the tag dimension on its tag, the
/// message dimension on its message, and its level is at least the
/// configured minimum.
pub open spec fn accept_spec(m: FilterModel, rec: Record) -> bool {
    &&& dim_passes(m.tag, rec.tag@)
    &&& dim_passes(m.msg, rec.message@)
    &&& rec.level.at_least(m.min_level)
}

/// The immutable filter configuration, constructed once before streaming
/// starts.
pub struct FilterConfig {
    tag: Vec<Pattern>,
    msg: Vec<Pattern>,
    min_level: Level,
}

impl View for FilterConfig {
    type V = FilterModel;

    closed spec fn view(&self) -> FilterModel {
        FilterModel { tag: pats_view(self.tag@), msg: pats_view(self.msg@), min_level: self.min_level }
    }
}

/// Compiles one dimension's raw patterns in order.
fn compile_dim(raw: &Vec<String>) -> (r: Option<Vec<Pattern>>)
    ensures
        r is Some <==> (forall|i: int|
            0 <= i < raw@.len() ==> re_ok(pattern_body(#[trigger] raw@[i]@))),
        r matches Some(ps) ==> {
            &&& pats_view(ps@) == raw.deep_view().map_values(|s: Seq<char>| spec_pattern_of(s))
            &&& forall|i: int| 0 <= i < ps@.len() ==> (#[trigger] ps@[i]).wf()
        },
{
    let mut out: Vec<Pattern> = Vec::new();
    let ghost target = raw.deep_view().map_values(|s: Seq<char>| spec_pattern_of(s));
    let mut i: usize = 0;
    while i < raw.len()
        invariant
            0 <= i <= raw.len(),
            out@.len() == i,
            forall|j: int| 0 <= j < i ==> re_ok(pattern_body(#[trigger] raw@[j]@)),
            forall|j: int| 0 <= j < i ==> (#[trigger] out@[j]).wf(),
            forall|j: int| 0 <= j < i ==> (#[trigger] out@[j])@ == spec_pattern_of(raw@[j]@),
        decreases raw.len() - i,
    {
        match Pattern::compile(raw[i].as_str()) {
            Some(p) => {
                out.push(p);
            },
            None => {
                assert(!re_ok(pattern_body(raw@[i as int]@)));
                return None;
            },
        }
        i = i + 1;
    }
    proof {
        assert(pats_view(out@) =~= target);
    }
    Some(out)
}

impl FilterConfig {
    /// Every held pattern's compiled expression belongs to its text.
    pub closed spec fn wf(self) -> bool {
        &&& forall|i: int| 0 <= i < self.tag@.len() ==> (#[trigger] self.tag@[i]).wf()
        &&& forall|i: int| 0 <= i < self.msg@.len() ==> (#[trigger] self.msg@[i]).wf()
    }

    /// Builds a filter from the raw tag patterns, raw message patterns and
    /// minimum level. Fails exactly when some pattern body is not a valid
    /// regular expression.
    pub fn new(tags: &Vec<String>, msgs: &Vec<String>, min_level: Level) -> (r: Option<
        FilterConfig,
    >)
        ensures
            r is Some <==> {
                &&& forall|i: int|
                    0 <= i < tags@.len() ==> re_ok(pattern_body(#[trigger] tags@[i]@))
                &&& forall|i: int|
                    0 <= i < msgs@.len() ==> re_ok(pattern_body(#[trigger] msgs@[i]@))
            },
            r matches Some(f) ==> f.wf() && f@ == (FilterModel {
                tag: tags.deep_view().map_values(|s: Seq<char>| spec_pattern_of(s)),
                msg: msgs.deep_view().map_values(|s: Seq<char>| spec_pattern_of(s)),
                min_level,
            }),
    {
        let tag = match compile_dim(tags) {
            Some(t) => t,
            None => {
                return None;
            },
        };
        let msg = match compile_dim(msgs) {
            Some(m) => m,
            None => {
                return None;
            },
        };
        Some(FilterConfig { tag, msg, min_level })
    }

    /// The configured minimum level.
    pub fn min_level(&self) -> (r: Level)
        ensures
            r == self@.min_level,
    {
        self.min_level
    }

    /// The admission decision for one record, a pure function of the record
    /// and the immutable configuration.
    pub fn accept(&self, rec: &Record) -> (r: bool)
        requires
            self.wf(),
        ensures
            r == accept_spec(self@, *rec),
    {
        if !dim_check(&self.tag, rec.tag.as_str()) {
            return false;
        }
        if !dim_check(&self.msg, rec.message.as_str()) {
            return false;
        }
        rec.level.ge(self.min_level)
    }
}

/// Evaluates one dimension on a text.
fn dim_check(pats: &Vec<Pattern>, text: &str) -> (r: bool)
    requires
        forall|i: int| 0 <= i < pats@.len() ==> (#[trigger] pats@[i]).wf(),
    ensures
        r == dim_passes(pats_view(pats@), text@),
{
    let ghost pv = pats_view(pats@);
    let mut pos_seen = false;
    let mut pos_match = false;
    let mut i: usize = 0;
    while i < pats.len()
        invariant
            0 <= i <= pats.len(),
            pv == pats_view(pats@),
            pv.len() == pats@.len(),
            forall|i: int| 0 <= i < pats@.len() ==> (#[trigger] pats@[i]).wf(),
            forall|j: int| 0 <= j < i ==> !((#[trigger] pv[j]).1 && re_match(pv[j].0, text@)),
            pos_seen <==> exists|j: int| 0 <= j < i && !(#[trigger] pv[j]).1,
            pos_match <==> exists|j: int|
                0 <= j < i && !(#[trigger] pv[j]).1 && re_match(pv[j].0, text@),
        decreases pats.len() - i,
    {
        let p = &pats[i];
        proof {
            assert(pv[i as int] == pats@[i as int]@);
        }
        let m = p.matches(text);
        if p.is_negated() {
            if m {
                assert(dim_vetoed(pv, text@));
                return false;
            }
        } else {
            pos_seen = true;
            if m {
                pos_match = true;
            }
        }
        i = i + 1;
    }
    !pos_seen || pos_match
}

/// Monotonicity of admission in the minimum level: with identical tag and
/// message configuration, lowering the minimum level never rejects a record
/// that the higher minimum accepted.
pub proof fn lemma_accept_monotonic(m1: FilterModel, m2: FilterModel, rec: Record)
    requires
        m1.tag == m2.tag,
        m1.msg == m2.msg,
        m2.min_level.rank() <= m1.min_level.rank(),
        accept_spec(m1, rec),
    ensures
        accept_spec(m2, rec),
{
}

} // verus!
