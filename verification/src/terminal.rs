//! Decisions of the interactive terminal sink: tag shortening for a bounded
//! column, and the highlight decision for a record's message. Rendering
//! itself — colors, dimming, column layout — is presentation the caller
//! performs on top of these decisions.

use vstd::prelude::*;
use vstd::string::StrSliceExecFns;
use vstd::string::StringExecFns;

use crate::filter::Pattern;
use crate::filter::pats_view;
use crate::filter::re_match;
use crate::push_char;

verus! {

/// The characters dropped first when a tag must shrink.
pub open spec fn is_vowel(c: char) -> bool {
    c == 'a' || c == 'e' || c == 'i' || c == 'o' || c == 'u' || c == 'A' || c == 'E' || c == 'I'
        || c == 'O' || c == 'U'
}

/// Executable [`is_vowel`].
pub fn char_is_vowel(c: char) -> (r: bool)
    ensures
        r == is_vowel(c),
{
    c == 'a' || c == 'e' || c == 'i' || c == 'o' || c == 'u' || c == 'A' || c == 'E' || c == 'I'
        || c == 'O' || c == 'U'
}

/// The sequence with its vowels removed, order kept.
pub open spec fn drop_vowels(s: Seq<char>) -> Seq<char>
    decreases s.len(),
{
    if s.len() == 0 {
        Seq::empty()
    } else {
        drop_vowels(s.drop_last()) + (if is_vowel(s.last()) {
            Seq::<char>::empty()
        } else {
            seq![s.last()]
        })
    }
}

/// A tag shortened for a column of `width` characters: unchanged when it
/// fits; otherwise its vowels are dropped, and what still overflows is
/// cut at the width.
pub open spec fn shorten_spec(s: Seq<char>, width: nat) -> Seq<char> {
    if s.len() <= width {
        s
    } else {
        let t = drop_vowels(s);
        if t.len() <= width {
            t
        } else {
            t.subrange(0, width as int)
        }
    }
}

/// Shortens a tag to at most `width` characters when it overflows.
pub fn shorten_tag(tag: &str, width: usize) -> (r: String)
    ensures
        r@ == shorten_spec(tag@, width as nat),
        r@.len() <= width || r@ == tag@,
{
    let n = tag.unicode_len();
    if n <= width {
        return tag.to_owned();
    }
    let mut out = String::new();
    let mut i: usize = 0;
    while i < n
        invariant
            0 <= i <= n,
            n == tag@.len(),
            out@ == drop_vowels(tag@.subrange(0, i as int)),
        decreases n - i,
    {
        let c = tag.get_char(i);
        proof {
            assert(tag@.subrange(0, i + 1).drop_last() =~= tag@.subrange(0, i as int));
            assert(tag@.subrange(0, i + 1).last() == tag@[i as int]);
        }
        if !char_is_vowel(c) {
            push_char(&mut out, c);
        }
        proof {
            assert(out@ =~= drop_vowels(tag@.subrange(0, i + 1)));
        }
        i = i + 1;
    }
    proof {
        assert(tag@.subrange(0, n as int) =~= tag@);
    }
    let m = out.as_str().unicode_len();
    if m <= width {
        out
    } else {
        String::from_str(out.as_str().substring_char(0, width))
    }
}

/// Whether one highlight pattern picks a text: a plain pattern picks what
/// it matches, a `!`-negated one picks what it does not match.
pub open spec fn highlight_match(p: (Seq<char>, bool), text: Seq<char>) -> bool {
    if p.1 {
        !re_match(p.0, text)
    } else {
        re_match(p.0, text)
    }
}

/// A text is highlighted when any configured highlight pattern picks it.
pub open spec fn highlighted(pats: Seq<(Seq<char>, bool)>, text: Seq<char>) -> bool {
    exists|i: int| 0 <= i < pats.len() && highlight_match(pats[i], text)
}

/// The highlight decision for a message: coloring only, never filtering.
pub fn highlights(pats: &Vec<Pattern>, text: &str) -> (r: bool)
    requires
        forall|i: int| 0 <= i < pats@.len() ==> (#[trigger] pats@[i]).wf(),
    ensures
        r == highlighted(pats_view(pats@), text@),
{
    let ghost pv = pats_view(pats@);
    let mut i: usize = 0;
    while i < pats.len()
        invariant
            0 <= i <= pats.len(),
            pv == pats_view(pats@),
            pv.len() == pats@.len(),
            forall|k: int| 0 <= k < pats@.len() ==> (#[trigger] pats@[k]).wf(),
            forall|j: int| 0 <= j < i ==> !highlight_match(#[trigger] pv[j], text@),
        decreases pats.len() - i,
    {
        let p = &pats[i];
        proof {
            assert(pv[i as int] == pats@[i as int]@);
        }
        let m = p.matches(text);
        if p.is_negated() {
            if !m {
                return true;
            }
        } else {
            if m {
                return true;
            }
        }
        i = i + 1;
    }
    false
}

} // verus!
