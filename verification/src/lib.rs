//! A log-processing pipeline: raw device log lines are normalized into
//! structured records, filtered by severity, tag and message, and routed to
//! terminal or rotating-file sinks.

pub mod filter;
pub mod format;
pub mod parser;
pub mod pipeline;
pub mod record;
pub mod rotate;
pub mod runner;
pub mod source;
pub mod terminal;

use vstd::prelude::*;
use vstd::string::StrSliceExecFns;

verus! {

/// True of the decimal digits `'0'..='9'`.
pub open spec fn is_digit(c: char) -> bool {
    '0' <= c && c <= '9'
}

/// The numeric value of a decimal digit.
pub open spec fn digit_val(c: char) -> int {
    c as int - '0' as int
}

/// Executable test for a decimal digit, equal to the spec-level class.
pub fn char_is_digit(c: char) -> (r: bool)
    ensures
        r == is_digit(c),
{
    '0' <= c && c <= '9'
}

/// Value of the decimal digits at positions `[i, j)`, most significant
/// first.
pub open spec fn dec_val(s: Seq<char>, i: int, j: int) -> int
    decreases j - i,
{
    if j <= i {
        0
    } else {
        10 * dec_val(s, i, j - 1) + digit_val(s[j - 1])
    }
}

/// Every position in `[i, j)` holds a decimal digit.
pub open spec fn all_digits(s: Seq<char>, i: int, j: int) -> bool {
    forall|k: int| i <= k < j ==> is_digit(#[trigger] s[k])
}

pub proof fn lemma_dec_val_nonneg(s: Seq<char>, i: int, j: int)
    requires
        all_digits(s, i, j),
    ensures
        dec_val(s, i, j) >= 0,
    decreases j - i,
{
    if j > i {
        lemma_dec_val_nonneg(s, i, j - 1);
    }
}

/// Appending digits never shrinks the value.
pub proof fn lemma_dec_val_mono(s: Seq<char>, i: int, j: int, k: int)
    requires
        all_digits(s, i, k),
        i <= j <= k,
    ensures
        dec_val(s, i, j) <= dec_val(s, i, k),
    decreases k - j,
{
    if j < k {
        lemma_dec_val_mono(s, i, j, k - 1);
        lemma_dec_val_nonneg(s, i, k - 1);
    }
}

/// Reads the decimal digits at `[from, to)` as a `u64`; fails exactly when
/// the value does not fit.
pub fn parse_u64_digits(s: &str, from: usize, to: usize) -> (r: Option<u64>)
    requires
        from <= to,
        to as int <= s@.len(),
        s@.len() <= usize::MAX,
        all_digits(s@, from as int, to as int),
    ensures
        r is Some <==> dec_val(s@, from as int, to as int) <= u64::MAX,
        r matches Some(v) ==> v as int == dec_val(s@, from as int, to as int),
{
    let mut acc: u64 = 0;
    let mut k = from;
    while k < to
        invariant
            from <= k <= to,
            to as int <= s@.len(),
            s@.len() <= usize::MAX,
            all_digits(s@, from as int, to as int),
            acc as int == dec_val(s@, from as int, k as int),
        decreases to - k,
    {
        let d = ((s.get_char(k) as u32) - 48) as u64;
        if acc > (u64::MAX - d) / 10 {
            proof {
                assert(10 * ((u64::MAX - d) / 10) <= u64::MAX - d) by (nonlinear_arith)
                    requires
                        0 <= d <= u64::MAX,
                ;
                assert(acc as int >= (u64::MAX - d) / 10 + 1);
                assert(10 * (acc as int) >= 10 * ((u64::MAX - d) / 10 + 1)) by (nonlinear_arith)
                    requires
                        acc as int >= (u64::MAX - d) / 10 + 1,
                ;
                assert(dec_val(s@, from as int, k as int + 1) > u64::MAX);
                lemma_dec_val_mono(s@, from as int, k as int + 1, to as int);
            }
            return None;
        }
        proof {
            assert(10 * (acc as int) <= 10 * ((u64::MAX - d) / 10)) by (nonlinear_arith)
                requires
                    acc as int <= (u64::MAX - d) / 10,
            ;
            assert(10 * ((u64::MAX - d) / 10) <= u64::MAX - d) by (nonlinear_arith)
                requires
                    0 <= d <= u64::MAX,
            ;
        }
        acc = 10 * acc + d;
        k = k + 1;
    }
    Some(acc)
}

/// The character of one decimal digit value.
pub open spec fn digit_char(d: int) -> char {
    if d == 0 {
        '0'
    } else if d == 1 {
        '1'
    } else if d == 2 {
        '2'
    } else if d == 3 {
        '3'
    } else if d == 4 {
        '4'
    } else if d == 5 {
        '5'
    } else if d == 6 {
        '6'
    } else if d == 7 {
        '7'
    } else if d == 8 {
        '8'
    } else if d == 9 {
        '9'
    } else {
        '?'
    }
}

/// Executable [`digit_char`].
pub fn digit_char_exec(d: u64) -> (r: char)
    ensures
        r == digit_char(d as int),
{
    match d {
        0 => '0',
        1 => '1',
        2 => '2',
        3 => '3',
        4 => '4',
        5 => '5',
        6 => '6',
        7 => '7',
        8 => '8',
        9 => '9',
        _ => '?',
    }
}

/// The decimal digits of `n`, most significant first, no leading zeros.
pub open spec fn dec_str(n: nat) -> Seq<char>
    decreases n,
{
    if n < 10 {
        seq![digit_char(n as int)]
    } else {
        dec_str(n / 10).push(digit_char((n % 10) as int))
    }
}

/// Relies on `String::push`: it appends exactly one character.
#[verifier::external_body]
pub(crate) fn push_char(s: &mut String, c: char)
    ensures
        final(s)@ == old(s)@.push(c),
{
    s.push(c);
}

/// Renders `n` in decimal.
pub fn u64_to_dec(n: u64) -> (r: String)
    ensures
        r@ == dec_str(n as nat),
    decreases n,
{
    if n < 10 {
        let mut s = String::new();
        push_char(&mut s, digit_char_exec(n));
        proof {
            assert(s@ =~= dec_str(n as nat));
        }
        s
    } else {
        proof {
            assert(n / 10 < n) by (nonlinear_arith)
                requires
                    n >= 10,
            ;
        }
        let mut s = u64_to_dec(n / 10);
        push_char(&mut s, digit_char_exec(n % 10));
        s
    }
}

/// Character-wise string equality, equal to equality of the views.
pub fn str_eq(a: &str, b: &str) -> (r: bool)
    ensures
        r == (a@ == b@),
{
    let na = a.unicode_len();
    let nb = b.unicode_len();
    if na != nb {
        return false;
    }
    let mut i: usize = 0;
    while i < na
        invariant
            0 <= i <= na,
            na == a@.len(),
            na == b@.len(),
            forall|j: int| 0 <= j < i ==> a@[j] == b@[j],
        decreases na - i,
    {
        if a.get_char(i) != b.get_char(i) {
            return false;
        }
        i = i + 1;
    }
    proof {
        assert(a@ =~= b@);
    }
    true
}

} // verus!
