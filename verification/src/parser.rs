//! The line parser: one raw line in, exactly one [`Record`] out, never a
//! failure. An ordered list of line grammars is tried; the first whose shape
//! matches wins, and a line no grammar matches degrades to a fallback record
//! that keeps the verbatim input.

use vstd::prelude::*;
use vstd::string::StrSliceExecFns;
use vstd::string::StringExecFns;

use crate::is_digit;
use crate::char_is_digit;
use crate::digit_val;
use crate::record::Level;
use crate::record::Record;
use crate::record::Timestamp;

verus! {

/// First index at or after `i` whose character is not a space, or the end of
/// the sequence.
pub open spec fn skip_spaces(s: Seq<char>, i: int) -> int
    decreases s.len() - i,
{
    if 0 <= i && i < s.len() && s[i] == ' ' {
        skip_spaces(s, i + 1)
    } else {
        i
    }
}

/// First index at or after `i` whose character is not a decimal digit, or the
/// end of the sequence.
pub open spec fn scan_digits(s: Seq<char>, i: int) -> int
    decreases s.len() - i,
{
    if 0 <= i && i < s.len() && is_digit(s[i]) {
        scan_digits(s, i + 1)
    } else {
        i
    }
}

/// First index at or after `i` holding the character `c`, or the end of the
/// sequence.
pub open spec fn scan_until(s: Seq<char>, i: int, c: char) -> int
    decreases s.len() - i,
{
    if 0 <= i && i < s.len() && s[i] != c {
        scan_until(s, i + 1, c)
    } else {
        i
    }
}

/// The sequence with its trailing spaces removed.
pub open spec fn rtrim(s: Seq<char>) -> Seq<char>
    decreases s.len(),
{
    if s.len() > 0 && s.last() == ' ' {
        rtrim(s.drop_last())
    } else {
        s
    }
}

/// Executable [`skip_spaces`].
pub(crate) fn skip_spaces_exec(s: &str, from: usize) -> (r: usize)
    requires
        from as int <= s@.len(),
    ensures
        r as int == skip_spaces(s@, from as int),
        from <= r,
        r as int <= s@.len(),
{
    let n = s.unicode_len();
    let mut i = from;
    while i < n && s.get_char(i) == ' '
        invariant
            from <= i <= n,
            n == s@.len(),
            skip_spaces(s@, from as int) == skip_spaces(s@, i as int),
        decreases n - i,
    {
        assert(skip_spaces(s@, i as int) == skip_spaces(s@, i + 1 as int));
        i = i + 1;
    }
    assert(skip_spaces(s@, i as int) == i as int);
    i
}

/// Executable [`scan_digits`].
pub(crate) fn scan_digits_exec(s: &str, from: usize) -> (r: usize)
    requires
        from as int <= s@.len(),
    ensures
        r as int == scan_digits(s@, from as int),
        from <= r,
        r as int <= s@.len(),
        crate::all_digits(s@, from as int, r as int),
{
    let n = s.unicode_len();
    let mut i = from;
    while i < n && char_is_digit(s.get_char(i))
        invariant
            from <= i <= n,
            n == s@.len(),
            scan_digits(s@, from as int) == scan_digits(s@, i as int),
            crate::all_digits(s@, from as int, i as int),
        decreases n - i,
    {
        assert(scan_digits(s@, i as int) == scan_digits(s@, i + 1 as int));
        i = i + 1;
    }
    assert(scan_digits(s@, i as int) == i as int);
    i
}

/// Executable [`scan_until`].
pub(crate) fn scan_until_exec(s: &str, from: usize, c: char) -> (r: usize)
    requires
        from as int <= s@.len(),
    ensures
        r as int == scan_until(s@, from as int, c),
        from <= r,
        r as int <= s@.len(),
{
    let n = s.unicode_len();
    let mut i = from;
    while i < n && s.get_char(i) != c
        invariant
            from <= i <= n,
            n == s@.len(),
            scan_until(s@, from as int, c) == scan_until(s@, i as int, c),
        decreases n - i,
    {
        assert(scan_until(s@, i as int, c) == scan_until(s@, i + 1 as int, c));
        i = i + 1;
    }
    assert(scan_until(s@, i as int, c) == i as int);
    i
}

/// Value of the two decimal digits at `i`, `i + 1`.
pub open spec fn val2(s: Seq<char>, i: int) -> int {
    10 * digit_val(s[i]) + digit_val(s[i + 1])
}

/// Value of the three decimal digits at `i`, `i + 1`, `i + 2`.
pub open spec fn val3(s: Seq<char>, i: int) -> int {
    100 * digit_val(s[i]) + 10 * digit_val(s[i + 1]) + digit_val(s[i + 2])
}

/// The message part of a line after the colon at `colon`: everything behind
/// the colon, with one space after it (the conventional `": "` separator)
/// not counted as part of the message.
pub open spec fn message_after(s: Seq<char>, colon: int) -> Seq<char> {
    if colon + 1 < s.len() && s[colon + 1] == ' ' {
        s.subrange(colon + 2, s.len() as int)
    } else {
        s.subrange(colon + 1, s.len() as int)
    }
}

/// The `threadtime` grammar's fixed-width head:
/// `MM-DD HH:MM:SS.mmm` at positions 0 to 17.
pub open spec fn tt_header_ok(s: Seq<char>) -> bool {
    &&& s.len() >= 18
    &&& is_digit(s[0]) && is_digit(s[1]) && s[2] == '-' && is_digit(s[3]) && is_digit(s[4])
    &&& s[5] == ' ' && is_digit(s[6]) && is_digit(s[7]) && s[8] == ':' && is_digit(s[9])
    &&& is_digit(s[10]) && s[11] == ':' && is_digit(s[12]) && is_digit(s[13]) && s[14] == '.'
    &&& is_digit(s[15]) && is_digit(s[16]) && is_digit(s[17])
}

/// Start of the process id field: first non-space after the timestamp.
pub open spec fn tt_pid_start(s: Seq<char>) -> int {
    skip_spaces(s, 18)
}

/// End of the process id digit run.
pub open spec fn tt_pid_end(s: Seq<char>) -> int {
    scan_digits(s, tt_pid_start(s))
}

/// Start of the thread id field.
pub open spec fn tt_tid_start(s: Seq<char>) -> int {
    skip_spaces(s, tt_pid_end(s))
}

/// End of the thread id digit run.
pub open spec fn tt_tid_end(s: Seq<char>) -> int {
    scan_digits(s, tt_tid_start(s))
}

/// Position of the one-letter level code.
pub open spec fn tt_level_pos(s: Seq<char>) -> int {
    skip_spaces(s, tt_tid_end(s))
}

/// Start of the tag: first non-space after the level code.
pub open spec fn tt_tag_start(s: Seq<char>) -> int {
    skip_spaces(s, tt_level_pos(s) + 1)
}

/// Position of the colon that ends the tag.
pub open spec fn tt_colon(s: Seq<char>) -> int {
    scan_until(s, tt_tag_start(s), ':')
}

/// The `threadtime` grammar:
/// `MM-DD HH:MM:SS.mmm  PID  TID L Tag: message`, with space-padded decimal
/// process and thread ids, a one-letter level code, and a tag ended by a
/// colon.
pub open spec fn tt_matches(s: Seq<char>) -> bool {
    &&& tt_header_ok(s)
    &&& tt_pid_end(s) > tt_pid_start(s)
    &&& tt_tid_end(s) > tt_tid_start(s)
    &&& tt_level_pos(s) < s.len()
    &&& Level::of_code(s[tt_level_pos(s)]) is Some
    &&& tt_level_pos(s) + 1 < s.len()
    &&& s[tt_level_pos(s) + 1] == ' '
    &&& tt_colon(s) < s.len()
}

/// The tag of a `threadtime` line, trailing spaces removed.
pub open spec fn tt_tag(s: Seq<char>) -> Seq<char> {
    rtrim(s.subrange(tt_tag_start(s), tt_colon(s)))
}

/// What a record parsed from a `threadtime` line holds: every field is the
/// exact extraction the grammar prescribes, and `raw` the verbatim line.
pub open spec fn tt_fields(s: Seq<char>, rec: Record) -> bool {
    &&& rec.raw@ == s
    &&& rec.timestamp matches Some(ts) && {
        &&& ts.month as int == val2(s, 0)
        &&& ts.day as int == val2(s, 3)
        &&& ts.hour as int == val2(s, 6)
        &&& ts.minute as int == val2(s, 9)
        &&& ts.second as int == val2(s, 12)
        &&& ts.millisecond as int == val3(s, 15)
    }
    &&& Level::of_code(s[tt_level_pos(s)]) == Some(rec.level)
    &&& rec.tag@ == tt_tag(s)
    &&& rec.process@ == s.subrange(tt_pid_start(s), tt_pid_end(s))
    &&& rec.thread@ == s.subrange(tt_tid_start(s), tt_tid_end(s))
    &&& rec.message@ == message_after(s, tt_colon(s))
}

/// Position of the opening parenthesis in a `brief` line.
pub open spec fn br_paren(s: Seq<char>) -> int {
    scan_until(s, 2, '(')
}

/// Start of the process id inside the parentheses.
pub open spec fn br_pid_start(s: Seq<char>) -> int {
    skip_spaces(s, br_paren(s) + 1)
}

/// End of the process id digit run.
pub open spec fn br_pid_end(s: Seq<char>) -> int {
    scan_digits(s, br_pid_start(s))
}

/// Position of the closing parenthesis.
pub open spec fn br_close(s: Seq<char>) -> int {
    skip_spaces(s, br_pid_end(s))
}

/// The `brief` grammar: `L/Tag( PID): message`, a one-letter level code, a
/// slash, a tag ended by the parenthesized space-padded process id, a colon.
pub open spec fn br_matches(s: Seq<char>) -> bool {
    &&& s.len() >= 2
    &&& Level::of_code(s[0]) is Some
    &&& s[1] == '/'
    &&& br_paren(s) < s.len()
    &&& br_pid_end(s) > br_pid_start(s)
    &&& br_close(s) + 1 < s.len()
    &&& s[br_close(s)] == ')'
    &&& s[br_close(s) + 1] == ':'
}

/// The tag of a `brief` line, trailing spaces removed.
pub open spec fn br_tag(s: Seq<char>) -> Seq<char> {
    rtrim(s.subrange(2, br_paren(s)))
}

/// What a record parsed from a `brief` line holds.
pub open spec fn br_fields(s: Seq<char>, rec: Record) -> bool {
    &&& rec.raw@ == s
    &&& rec.timestamp is None
    &&& Level::of_code(s[0]) == Some(rec.level)
    &&& rec.tag@ == br_tag(s)
    &&& rec.process@ == s.subrange(br_pid_start(s), br_pid_end(s))
    &&& rec.thread@ == Seq::<char>::empty()
    &&& rec.message@ == message_after(s, br_close(s) + 1)
}

/// Value of one decimal digit character.
fn dval(c: char) -> (v: u8)
    requires
        is_digit(c),
    ensures
        v as int == digit_val(c),
        v <= 9,
{
    ((c as u32) - 48) as u8
}

/// Value of the two decimal digits at `i`, `i + 1`.
fn two_digit_at(s: &str, i: usize) -> (v: u8)
    requires
        i + 1 < s@.len(),
        s@.len() <= usize::MAX,
        is_digit(s@[i as int]),
        is_digit(s@[i as int + 1]),
    ensures
        v as int == val2(s@, i as int),
        v < 100,
{
    let d0 = dval(s.get_char(i));
    let d1 = dval(s.get_char(i + 1));
    10 * d0 + d1
}

/// Value of the three decimal digits at `i`, `i + 1`, `i + 2`.
fn three_digit_at(s: &str, i: usize) -> (v: u16)
    requires
        i + 2 < s@.len(),
        s@.len() <= usize::MAX,
        is_digit(s@[i as int]),
        is_digit(s@[i as int + 1]),
        is_digit(s@[i as int + 2]),
    ensures
        v as int == val3(s@, i as int),
        v < 1000,
{
    let d0 = dval(s.get_char(i)) as u16;
    let d1 = dval(s.get_char(i + 1)) as u16;
    let d2 = dval(s.get_char(i + 2)) as u16;
    100 * d0 + 10 * d1 + d2
}

/// Largest `e` in `[from, to]` such that the range `[from, e)` has no
/// trailing spaces; the subrange up to `e` equals the right-trimmed
/// subrange up to `to`.
fn rtrim_end(s: &str, from: usize, to: usize) -> (e: usize)
    requires
        from <= to,
        to as int <= s@.len(),
    ensures
        from <= e <= to,
        s@.subrange(from as int, e as int) == rtrim(s@.subrange(from as int, to as int)),
{
    let mut e = to;
    while e > from && s.get_char(e - 1) == ' '
        invariant
            from <= e <= to,
            to as int <= s@.len(),
            rtrim(s@.subrange(from as int, to as int)) == rtrim(
                s@.subrange(from as int, e as int),
            ),
        decreases e,
    {
        proof {
            let sub = s@.subrange(from as int, e as int);
            assert(sub.last() == s@[e - 1]);
            assert(sub.drop_last() =~= s@.subrange(from as int, e - 1));
        }
        e = e - 1;
    }
    proof {
        let sub = s@.subrange(from as int, e as int);
        if sub.len() > 0 {
            assert(sub.last() == s@[e - 1]);
        }
        assert(rtrim(sub) == sub);
    }
    e
}

/// The substring `[from, to)` of `s` as an owned string.
fn substring_of(s: &str, from: usize, to: usize) -> (r: String)
    requires
        from <= to,
        to as int <= s@.len(),
    ensures
        r@ == s@.subrange(from as int, to as int),
{
    String::from_str(s.substring_char(from, to))
}

/// The message part of `line` after the colon at `colon`.
fn message_of(line: &str, colon: usize, n: usize) -> (r: String)
    requires
        colon < n,
        n as int == line@.len(),
    ensures
        r@ == message_after(line@, colon as int),
{
    if colon + 1 < n && line.get_char(colon + 1) == ' ' {
        substring_of(line, colon + 2, n)
    } else {
        substring_of(line, colon + 1, n)
    }
}

/// Tries the `threadtime` grammar on one line.
fn try_threadtime(line: &str) -> (r: Option<Record>)
    ensures
        r is Some <==> tt_matches(line@),
        r matches Some(rec) ==> tt_fields(line@, rec) && rec.wf(),
{
    let n = line.unicode_len();
    if n < 18 {
        return None;
    }
    if !(char_is_digit(line.get_char(0)) && char_is_digit(line.get_char(1)) && line.get_char(2)
        == '-' && char_is_digit(line.get_char(3)) && char_is_digit(line.get_char(4))
        && line.get_char(5) == ' ' && char_is_digit(line.get_char(6)) && char_is_digit(
        line.get_char(7),
    ) && line.get_char(8) == ':' && char_is_digit(line.get_char(9)) && char_is_digit(
        line.get_char(10),
    ) && line.get_char(11) == ':' && char_is_digit(line.get_char(12)) && char_is_digit(
        line.get_char(13),
    ) && line.get_char(14) == '.' && char_is_digit(line.get_char(15)) && char_is_digit(
        line.get_char(16),
    ) && char_is_digit(line.get_char(17))) {
        return None;
    }
    let pid_start = skip_spaces_exec(line, 18);
    let pid_end = scan_digits_exec(line, pid_start);
    if pid_end <= pid_start {
        return None;
    }
    let tid_start = skip_spaces_exec(line, pid_end);
    let tid_end = scan_digits_exec(line, tid_start);
    if tid_end <= tid_start {
        return None;
    }
    let level_pos = skip_spaces_exec(line, tid_end);
    if level_pos >= n {
        return None;
    }
    let level = match Level::from_code(line.get_char(level_pos)) {
        Some(l) => l,
        None => {
            return None;
        },
    };
    if !(level_pos + 1 < n && line.get_char(level_pos + 1) == ' ') {
        return None;
    }
    let tag_start = skip_spaces_exec(line, level_pos + 1);
    let colon = scan_until_exec(line, tag_start, ':');
    if colon >= n {
        return None;
    }
    let tag_end = rtrim_end(line, tag_start, colon);
    let ts = Timestamp {
        month: two_digit_at(line, 0),
        day: two_digit_at(line, 3),
        hour: two_digit_at(line, 6),
        minute: two_digit_at(line, 9),
        second: two_digit_at(line, 12),
        millisecond: three_digit_at(line, 15),
    };
    Some(
        Record {
            timestamp: Some(ts),
            level,
            tag: substring_of(line, tag_start, tag_end),
            process: substring_of(line, pid_start, pid_end),
            thread: substring_of(line, tid_start, tid_end),
            message: message_of(line, colon, n),
            raw: line.to_owned(),
        },
    )
}

/// Tries the `brief` grammar on one line.
fn try_brief(line: &str) -> (r: Option<Record>)
    ensures
        r is Some <==> br_matches(line@),
        r matches Some(rec) ==> br_fields(line@, rec) && rec.wf(),
{
    let n = line.unicode_len();
    if n < 2 {
        return None;
    }
    let level = match Level::from_code(line.get_char(0)) {
        Some(l) => l,
        None => {
            return None;
        },
    };
    if line.get_char(1) != '/' {
        return None;
    }
    let paren = scan_until_exec(line, 2, '(');
    if paren >= n {
        return None;
    }
    let pid_start = skip_spaces_exec(line, paren + 1);
    let pid_end = scan_digits_exec(line, pid_start);
    if pid_end <= pid_start {
        return None;
    }
    let close = skip_spaces_exec(line, pid_end);
    if !(close < n && close + 1 < n && line.get_char(close) == ')' && line.get_char(close + 1)
        == ':') {
        return None;
    }
    let tag_end = rtrim_end(line, 2, paren);
    Some(
        Record {
            timestamp: None,
            level,
            tag: substring_of(line, 2, tag_end),
            process: substring_of(line, pid_start, pid_end),
            thread: String::new(),
            message: message_of(line, close + 1, n),
            raw: line.to_owned(),
        },
    )
}

/// The relation between a line and the one record [`parse`] yields for
/// it: the verbatim line in `raw`, and the fields of the first matching
/// grammar, or the fallback when none matches.
pub open spec fn parse_rel(line: Seq<char>, rec: Record) -> bool {
    &&& rec.raw@ == line
    &&& (tt_matches(line) ==> tt_fields(line, rec))
    &&& (!tt_matches(line) && br_matches(line) ==> br_fields(line, rec))
    &&& (!tt_matches(line) && !br_matches(line) ==> rec.is_fallback_for(line))
}

/// Turns one raw line into exactly one record; never fails.
///
/// The grammars are tried in order (`threadtime`, then `brief`); a line no
/// grammar matches degrades to the fallback record, whose `raw` field still
/// holds the verbatim input. For every line `parse(line).raw == line`.
pub fn parse(line: &str) -> (r: Record)
    ensures
        r.raw@ == line@,
        parse_rel(line@, r),
        r.wf(),
{
    if let Some(rec) = try_threadtime(line) {
        return rec;
    }
    if let Some(rec) = try_brief(line) {
        return rec;
    }
    Record {
        timestamp: None,
        level: Level::Debug,
        tag: String::new(),
        process: String::new(),
        thread: String::new(),
        message: String::new(),
        raw: line.to_owned(),
    }
}

} // verus!
