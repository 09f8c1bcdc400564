//! File rotation policy for the rotating-file sink: a running count of
//! records in the current output file, a record-count threshold, and a
//! filename strategy for each newly opened file. The sink's transport work
//! (opening, writing, closing handles) is the caller's; the policy decides.

use vstd::prelude::*;
use vstd::arithmetic::div_mod::lemma_fundamental_div_mod;
use vstd::arithmetic::div_mod::lemma_fundamental_div_mod_converse;
use vstd::string::StringExecFns;

use crate::all_digits;
use crate::dec_str;
use crate::dec_val;
use crate::digit_char;
use crate::lemma_dec_val_nonneg;
use crate::parse_u64_digits;
use crate::parser::scan_digits;
use crate::parser::scan_digits_exec;
use crate::u64_to_dec;

verus! {

/// How output files are named across rotations.
#[derive(Clone, Copy, PartialEq, Eq, Structural, Debug)]
pub enum FilenameFormat {
    /// Every rotation reuses the one configured name.
    Single,
    /// File `k` is the configured name with `-k` appended.
    Enumerate,
    /// Each new file carries the local date of its creation as a prefix.
    Date,
}

/// The name of output file number `index` (counted from zero) under a
/// strategy, given the base name and the local date text at creation time.
pub open spec fn filename_spec(
    strategy: FilenameFormat,
    base: Seq<char>,
    index: nat,
    date: Seq<char>,
) -> Seq<char> {
    match strategy {
        FilenameFormat::Single => base,
        FilenameFormat::Enumerate => base + seq!['-'] + dec_str(index),
        FilenameFormat::Date => date + seq!['-'] + base,
    }
}

/// Builds the name of output file `index` under `strategy`.
pub fn filename_for(strategy: FilenameFormat, base: &str, index: u64, date: &str) -> (r: String)
    ensures
        r@ == filename_spec(strategy, base@, index as nat, date@),
{
    match strategy {
        FilenameFormat::Single => base.to_owned(),
        FilenameFormat::Enumerate => {
            let mut r = base.to_owned();
            crate::push_char(&mut r, '-');
            let digits = u64_to_dec(index);
            r.append(digits.as_str());
            proof {
                assert(r@ =~= base@ + seq!['-'] + dec_str(index as nat));
            }
            r
        },
        FilenameFormat::Date => {
            let mut r = date.to_owned();
            crate::push_char(&mut r, '-');
            r.append(base);
            proof {
                assert(r@ =~= date@ + seq!['-'] + base@);
            }
            r
        },
    }
}

/// Rotation bookkeeping: how many records the current file holds and how
/// many files were finished. A file is finished exactly when it has
/// received `records_per_file` records, so every finished file holds
/// exactly the threshold count.
pub struct RotationState {
    /// Records per file; rotation is disabled when `None`.
    pub records_per_file: Option<u64>,
    /// Records written to the current (open) file.
    pub current_count: u64,
    /// Files finished so far; also the index of the current file.
    pub files_finished: u64,
}

impl RotationState {
    /// The threshold is positive and the current file is never full: a full
    /// file is finished at once.
    pub open spec fn wf(self) -> bool {
        self.records_per_file matches Some(t) ==> (t > 0 && self.current_count < t)
    }

    /// A fresh policy: nothing written, nothing finished.
    pub fn new(records_per_file: Option<u64>) -> (r: RotationState)
        requires
            records_per_file matches Some(t) ==> t > 0,
        ensures
            r.wf(),
            r.records_per_file == records_per_file,
            r.current_count == 0,
            r.files_finished == 0,
    {
        RotationState { records_per_file, current_count: 0, files_finished: 0 }
    }

    /// One record has been written to the current file. Returns whether the
    /// caller must now rotate: close the current file completely before
    /// opening the next one.
    pub fn on_record(&mut self) -> (rotate: bool)
        requires
            old(self).wf(),
            old(self).current_count < u64::MAX,
            old(self).files_finished < u64::MAX,
        ensures
            final(self).wf(),
            final(self).records_per_file == old(self).records_per_file,
            rotate <==> (old(self).records_per_file matches Some(t) && old(self).current_count
                + 1 == t),
            rotate ==> final(self).current_count == 0 && final(self).files_finished == old(
                self).files_finished + 1,
            !rotate ==> final(self).current_count == old(self).current_count + 1 && final(
                self).files_finished == old(self).files_finished,
    {
        self.current_count = self.current_count + 1;
        match self.records_per_file {
            Some(t) => {
                if self.current_count == t {
                    self.current_count = 0;
                    self.files_finished = self.files_finished + 1;
                    true
                } else {
                    false
                }
            },
            None => false,
        }
    }
}

/// One step of the rotation policy on the pair (files finished, records in
/// the current file).
pub open spec fn rot_step(fin: nat, cur: nat, t: nat) -> (nat, nat) {
    if cur + 1 == t {
        ((fin + 1) as nat, 0 as nat)
    } else {
        (fin, (cur + 1) as nat)
    }
}

/// The pair (files finished, records in the current file) after `n`
/// records under threshold `t`, starting from a fresh policy.
pub open spec fn rot_iter(n: nat, t: nat) -> (nat, nat)
    decreases n,
{
    if n == 0 {
        (0 as nat, 0 as nat)
    } else {
        rot_step(rot_iter((n - 1) as nat, t).0, rot_iter((n - 1) as nat, t).1, t)
    }
}

/// Distribution of records over rotated files: after `n` records under a
/// positive threshold `t`, exactly `n / t` files are finished — each,
/// by construction of the policy, with exactly `t` records — and the
/// current file holds the remaining `n % t`.
pub proof fn lemma_rotation_distribution(n: nat, t: nat)
    requires
        t > 0,
    ensures
        rot_iter(n, t).0 == n / t,
        rot_iter(n, t).1 == n % t,
    decreases n,
{
    if n == 0 {
        lemma_fundamental_div_mod_converse(0, t as int, 0, 0);
    } else {
        let m = (n - 1) as nat;
        lemma_rotation_distribution(m, t);
        lemma_fundamental_div_mod(m as int, t as int);
        if m % t + 1 == t {
            assert((m as int / t as int + 1) * t as int == (m as int / t as int) * t as int
                + t as int) by (nonlinear_arith);
            lemma_fundamental_div_mod_converse(n as int, t as int, m as int / t as int + 1, 0);
        } else {
            lemma_fundamental_div_mod_converse(
                n as int,
                t as int,
                m as int / t as int,
                m as int % t as int + 1,
            );
        }
    }
}

/// The decimal-size suffixes of `--records-per-file`: `k`, `M` and `G`
/// scale by powers of one thousand.
pub open spec fn suffix_mult(c: char) -> Option<int> {
    match c {
        'k' => Some(1000int),
        'M' => Some(1000000int),
        'G' => Some(1000000000int),
        _ => None,
    }
}

/// The value a size text denotes: decimal digits with an optional final
/// `k`, `M` or `G` multiplier.
pub open spec fn size_value(s: Seq<char>) -> Option<int> {
    if s.len() == 0 {
        None
    } else if suffix_mult(s.last()) is Some {
        if s.len() >= 2 && all_digits(s, 0, s.len() - 1) {
            Some(dec_val(s, 0, s.len() - 1) * suffix_mult(s.last()).unwrap())
        } else {
            None
        }
    } else if all_digits(s, 0, s.len() as int) {
        Some(dec_val(s, 0, s.len() as int))
    } else {
        None
    }
}

/// Parses a record-count size such as `250`, `4k`, `1M` or `2G`. Succeeds
/// exactly when the text denotes a value and the value fits a `u64`.
pub fn parse_size(s: &str) -> (r: Option<u64>)
    requires
        s@.len() <= usize::MAX,
    ensures
        r is Some <==> (size_value(s@) matches Some(m) && m <= u64::MAX),
        r matches Some(v) ==> size_value(s@) == Some(v as int),
{
    let n = s.unicode_len();
    if n == 0 {
        return None;
    }
    let last = s.get_char(n - 1);
    let mult: u64 = match last {
        'k' => 1000,
        'M' => 1000000,
        'G' => 1000000000,
        _ => 1,
    };
    let digits_end = if mult > 1 {
        n - 1
    } else {
        n
    };
    if digits_end == 0 {
        return None;
    }
    let e = scan_digits_exec(s, 0);
    if e < digits_end {
        proof {
            lemma_scan_digits_stop(s@, 0);
        }
        return None;
    }
    proof {
        if mult == 1 {
            assert(suffix_mult(s@.last()) is None);
        }
    }
    let v = match parse_u64_digits(s, 0, digits_end) {
        Some(v) => v,
        None => {
            proof {
                lemma_dec_val_nonneg(s@, 0, digits_end as int);
                if mult > 1 {
                    assert(dec_val(s@, 0, digits_end as int) * (mult as int) >= dec_val(
                        s@,
                        0,
                        digits_end as int,
                    ) * 1) by (nonlinear_arith)
                        requires
                            dec_val(s@, 0, digits_end as int) >= 0,
                            mult >= 1,
                    ;
                }
            }
            return None;
        },
    };
    if v > u64::MAX / mult {
        proof {
            let m = mult as int;
            assert((u64::MAX as int / m) * m + u64::MAX as int % m == u64::MAX) by {
                lemma_fundamental_div_mod(u64::MAX as int, m);
            }
            assert(v as int * m > u64::MAX) by (nonlinear_arith)
                requires
                    v as int >= u64::MAX as int / m + 1,
                    m > 0,
                    (u64::MAX as int / m) * m + u64::MAX as int % m == u64::MAX,
                    u64::MAX as int % m < m,
            ;
        }
        return None;
    }
    proof {
        let m = mult as int;
        assert((u64::MAX as int / m) * m <= u64::MAX) by {
            lemma_fundamental_div_mod(u64::MAX as int, m);
        }
        assert(v as int * m <= (u64::MAX as int / m) * m) by (nonlinear_arith)
            requires
                0 <= v as int <= u64::MAX as int / m,
                m > 0,
        ;
    }
    Some(v * mult)
}

/// Four decimal digits, zero-padded.
pub open spec fn pad4(v: int) -> Seq<char> {
    seq![
        digit_char(v / 1000),
        digit_char(v / 100 % 10),
        digit_char(v / 10 % 10),
        digit_char(v % 10),
    ]
}

/// A date as `YYYY-MM-DD`.
pub open spec fn date_seq(y: int, m: int, d: int) -> Seq<char> {
    pad4(y) + seq!['-'] + crate::format::pad2(m) + seq!['-'] + crate::format::pad2(d)
}

/// Renders a date as `YYYY-MM-DD`.
pub fn format_date(year: u16, month: u8, day: u8) -> (r: String)
    requires
        year <= 9999,
        month < 100,
        day < 100,
    ensures
        r@ == date_seq(year as int, month as int, day as int),
{
    let mut out = String::new();
    crate::push_char(&mut out, crate::digit_char_exec((year / 1000) as u64));
    crate::push_char(&mut out, crate::digit_char_exec((year / 100 % 10) as u64));
    crate::push_char(&mut out, crate::digit_char_exec((year / 10 % 10) as u64));
    crate::push_char(&mut out, crate::digit_char_exec((year % 10) as u64));
    crate::push_char(&mut out, '-');
    crate::format::push_pad2(&mut out, month);
    crate::push_char(&mut out, '-');
    crate::format::push_pad2(&mut out, day);
    proof {
        assert(out@ =~= date_seq(year as int, month as int, day as int));
    }
    out
}

/// Relies on `time::now`: the current local time, broken down; the month
/// and day ranges are those the `time::Tm` fields document. The year is
/// whatever the clock reports.
#[verifier::external_body]
fn local_now_fields() -> (r: (i32, i32, i32))
    ensures
        0 <= r.1 <= 11,
        1 <= r.2 <= 31,
{
    let tm = time::now();
    (tm.tm_year, tm.tm_mon, tm.tm_mday)
}

/// The current local date as `YYYY-MM-DD`, for the `date` filename
/// strategy. Years outside 0 to 9999 are clamped to that range.
pub fn local_date_text() -> (r: String)
    ensures
        exists|y: int, m: int, d: int|
            0 <= y <= 9999 && 1 <= m <= 12 && 1 <= d <= 31 && r@ == #[trigger] date_seq(
                y,
                m,
                d,
            ),
{
    let (ty, tmon, tday) = local_now_fields();
    let year: u16 = if ty < -1900 {
        0
    } else if ty > 8099 {
        9999
    } else {
        (ty + 1900) as u16
    };
    let month: u8 = (tmon + 1) as u8;
    let day: u8 = tday as u8;
    let r = format_date(year, month, day);
    proof {
        assert(r@ == date_seq(year as int, month as int, day as int));
    }
    r
}

/// Where [`scan_digits`] stops before the end of the sequence, the
/// character there is not a digit.
proof fn lemma_scan_digits_stop(s: Seq<char>, i: int)
    requires
        0 <= i <= s.len(),
    ensures
        scan_digits(s, i) < s.len() ==> !crate::is_digit(s[scan_digits(s, i)]),
    decreases s.len() - i,
{
    if i < s.len() && crate::is_digit(s[i]) {
        lemma_scan_digits_stop(s, i + 1);
    }
}

} // verus!
