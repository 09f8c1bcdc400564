//! Rendering accepted records for the sinks: raw passthrough, and
//! structured `csv`, `html`, `json` and `human` lines with explicit
//! per-field escaping. Every format yields exactly one output line per
//! record, newline included.

use vstd::prelude::*;
use vstd::string::StrSliceExecFns;
use vstd::string::StringExecFns;

use crate::digit_char;
use crate::digit_char_exec;
use crate::push_char;
use crate::record::Level;
use crate::record::Record;
use crate::record::Timestamp;

verus! {

/// The output format of a sink.
#[derive(Clone, Copy, PartialEq, Eq, Structural, Debug)]
pub enum Format {
    Raw,
    Csv,
    Html,
    Json,
    Human,
}

/// The field-escaping rule of each structured format.
#[derive(Clone, Copy, PartialEq, Eq, Structural, Debug)]
pub enum EscapeMode {
    /// A double quote is doubled; the field stands between double quotes.
    Csv,
    /// `&`, `<`, `>` and `"` become character entities.
    Html,
    /// Backslash, double quote and the control characters newline,
    /// carriage return and tab are backslash-escaped.
    Json,
}

/// What one character contributes to an escaped field.
pub open spec fn esc_char(m: EscapeMode, c: char) -> Seq<char> {
    match m {
        EscapeMode::Csv => if c == '"' {
            seq!['"', '"']
        } else {
            seq![c]
        },
        EscapeMode::Html => if c == '&' {
            seq!['&', 'a', 'm', 'p', ';']
        } else if c == '<' {
            seq!['&', 'l', 't', ';']
        } else if c == '>' {
            seq!['&', 'g', 't', ';']
        } else if c == '"' {
            seq!['&', 'q', 'u', 'o', 't', ';']
        } else {
            seq![c]
        },
        EscapeMode::Json => if c == '\\' {
            seq!['\\', '\\']
        } else if c == '"' {
            seq!['\\', '"']
        } else if c == '\n' {
            seq!['\\', 'n']
        } else if c == '\r' {
            seq!['\\', 'r']
        } else if c == '\t' {
            seq!['\\', 't']
        } else {
            seq![c]
        },
    }
}

/// A whole field, escaped character by character.
pub open spec fn escaped(m: EscapeMode, s: Seq<char>) -> Seq<char>
    decreases s.len(),
{
    if s.len() == 0 {
        Seq::empty()
    } else {
        escaped(m, s.drop_last()) + esc_char(m, s.last())
    }
}

/// Appends the escaped form of `s` to `out`.
fn escape_into(m: EscapeMode, s: &str, out: &mut String)
    ensures
        final(out)@ == old(out)@ + escaped(m, s@),
{
    let n = s.unicode_len();
    let mut i: usize = 0;
    while i < n
        invariant
            0 <= i <= n,
            n == s@.len(),
            out@ == old(out)@ + escaped(m, s@.subrange(0, i as int)),
        decreases n - i,
    {
        let c = s.get_char(i);
        let ghost prev = out@;
        proof {
            assert(s@.subrange(0, i + 1).drop_last() =~= s@.subrange(0, i as int));
            assert(s@.subrange(0, i + 1).last() == s@[i as int]);
        }
        match m {
            EscapeMode::Csv => {
                if c == '"' {
                    push_char(out, '"');
                    push_char(out, '"');
                } else {
                    push_char(out, c);
                }
            },
            EscapeMode::Html => {
                if c == '&' {
                    push_char(out, '&');
                    push_char(out, 'a');
                    push_char(out, 'm');
                    push_char(out, 'p');
                    push_char(out, ';');
                } else if c == '<' {
                    push_char(out, '&');
                    push_char(out, 'l');
                    push_char(out, 't');
                    push_char(out, ';');
                } else if c == '>' {
                    push_char(out, '&');
                    push_char(out, 'g');
                    push_char(out, 't');
                    push_char(out, ';');
                } else if c == '"' {
                    push_char(out, '&');
                    push_char(out, 'q');
                    push_char(out, 'u');
                    push_char(out, 'o');
                    push_char(out, 't');
                    push_char(out, ';');
                } else {
                    push_char(out, c);
                }
            },
            EscapeMode::Json => {
                if c == '\\' {
                    push_char(out, '\\');
                    push_char(out, '\\');
                } else if c == '"' {
                    push_char(out, '\\');
                    push_char(out, '"');
                } else if c == '\n' {
                    push_char(out, '\\');
                    push_char(out, 'n');
                } else if c == '\r' {
                    push_char(out, '\\');
                    push_char(out, 'r');
                } else if c == '\t' {
                    push_char(out, '\\');
                    push_char(out, 't');
                } else {
                    push_char(out, c);
                }
            },
        }
        proof {
            assert(out@ =~= prev + esc_char(m, s@[i as int]));
            assert(out@ =~= old(out)@ + escaped(m, s@.subrange(0, i + 1)));
        }
        i = i + 1;
    }
    proof {
        assert(s@.subrange(0, n as int) =~= s@);
    }
}

/// Two decimal digits, zero-padded.
pub open spec fn pad2(v: int) -> Seq<char> {
    seq![digit_char(v / 10), digit_char(v % 10)]
}

/// Three decimal digits, zero-padded.
pub open spec fn pad3(v: int) -> Seq<char> {
    seq![digit_char(v / 100), digit_char(v / 10 % 10), digit_char(v % 10)]
}

/// A timestamp as `MM-DD HH:MM:SS.mmm`.
pub open spec fn timestamp_seq(ts: Timestamp) -> Seq<char> {
    pad2(ts.month as int) + seq!['-'] + pad2(ts.day as int) + seq![' '] + pad2(ts.hour as int)
        + seq![':'] + pad2(ts.minute as int) + seq![':'] + pad2(ts.second as int) + seq!['.']
        + pad3(ts.millisecond as int)
}

/// A missing timestamp renders as nothing.
pub open spec fn opt_timestamp_seq(o: Option<Timestamp>) -> Seq<char> {
    match o {
        Some(ts) => timestamp_seq(ts),
        None => Seq::empty(),
    }
}

/// Appends two zero-padded digits.
pub(crate) fn push_pad2(out: &mut String, v: u8)
    requires
        v < 100,
    ensures
        final(out)@ == old(out)@ + pad2(v as int),
{
    push_char(out, digit_char_exec((v / 10) as u64));
    push_char(out, digit_char_exec((v % 10) as u64));
    proof {
        assert(out@ =~= old(out)@ + pad2(v as int));
    }
}

/// Appends three zero-padded digits.
fn push_pad3(out: &mut String, v: u16)
    requires
        v < 1000,
    ensures
        final(out)@ == old(out)@ + pad3(v as int),
{
    push_char(out, digit_char_exec((v / 100) as u64));
    push_char(out, digit_char_exec((v / 10 % 10) as u64));
    push_char(out, digit_char_exec((v % 10) as u64));
    proof {
        assert(out@ =~= old(out)@ + pad3(v as int));
    }
}

/// Appends the timestamp, or nothing when there is none.
fn push_timestamp(out: &mut String, o: &Option<Timestamp>)
    requires
        o matches Some(ts) ==> ts.wf(),
    ensures
        final(out)@ == old(out)@ + opt_timestamp_seq(*o),
{
    match o {
        Some(ts) => {
            push_pad2(out, ts.month);
            push_char(out, '-');
            push_pad2(out, ts.day);
            push_char(out, ' ');
            push_pad2(out, ts.hour);
            push_char(out, ':');
            push_pad2(out, ts.minute);
            push_char(out, ':');
            push_pad2(out, ts.second);
            push_char(out, '.');
            push_pad3(out, ts.millisecond);
            proof {
                assert(out@ =~= old(out)@ + opt_timestamp_seq(*o));
            }
        },
        None => {
            proof {
                assert(out@ =~= old(out)@ + opt_timestamp_seq(*o));
            }
        },
    }
}

/// The display name of a level.
pub open spec fn level_name(l: Level) -> Seq<char> {
    match l {
        Level::Trace => "Trace"@,
        Level::Debug => "Debug"@,
        Level::Info => "Info"@,
        Level::Warn => "Warn"@,
        Level::Error => "Error"@,
        Level::Fatal => "Fatal"@,
        Level::Assert => "Assert"@,
    }
}

/// Appends the display name of a level.
fn push_level_name(out: &mut String, l: Level)
    ensures
        final(out)@ == old(out)@ + level_name(l),
{
    match l {
        Level::Trace => out.append("Trace"),
        Level::Debug => out.append("Debug"),
        Level::Info => out.append("Info"),
        Level::Warn => out.append("Warn"),
        Level::Error => out.append("Error"),
        Level::Fatal => out.append("Fatal"),
        Level::Assert => out.append("Assert"),
    }
}

/// One `csv` line: the six fields timestamp, tag, process, thread, level
/// and message, each double-quoted and escaped, comma-separated.
pub open spec fn csv_line(rec: Record) -> Seq<char> {
    "\""@ + escaped(EscapeMode::Csv, opt_timestamp_seq(rec.timestamp)) + "\",\""@ + escaped(
        EscapeMode::Csv,
        rec.tag@,
    ) + "\",\""@ + escaped(EscapeMode::Csv, rec.process@) + "\",\""@ + escaped(
        EscapeMode::Csv,
        rec.thread@,
    ) + "\",\""@ + level_name(rec.level) + "\",\""@ + escaped(EscapeMode::Csv, rec.message@)
        + "\"\n"@
}

/// One `html` table row with the same six fields, entity-escaped.
pub open spec fn html_line(rec: Record) -> Seq<char> {
    "<tr><td>"@ + escaped(EscapeMode::Html, opt_timestamp_seq(rec.timestamp)) + "</td><td>"@
        + escaped(EscapeMode::Html, rec.tag@) + "</td><td>"@ + escaped(
        EscapeMode::Html,
        rec.process@,
    ) + "</td><td>"@ + escaped(EscapeMode::Html, rec.thread@) + "</td><td>"@ + level_name(
        rec.level,
    ) + "</td><td>"@ + escaped(EscapeMode::Html, rec.message@) + "</td></tr>\n"@
}

/// One `json` object per line, every string field escaped.
pub open spec fn json_line(rec: Record) -> Seq<char> {
    "{\"timestamp\":\""@ + escaped(EscapeMode::Json, opt_timestamp_seq(rec.timestamp))
        + "\",\"level\":\""@ + level_name(rec.level) + "\",\"tag\":\""@ + escaped(
        EscapeMode::Json,
        rec.tag@,
    ) + "\",\"process\":\""@ + escaped(EscapeMode::Json, rec.process@) + "\",\"thread\":\""@
        + escaped(EscapeMode::Json, rec.thread@) + "\",\"message\":\""@ + escaped(
        EscapeMode::Json,
        rec.message@,
    ) + "\",\"raw\":\""@ + escaped(EscapeMode::Json, rec.raw@) + "\"}\n"@
}

/// One `human` line: the timestamp when present, then
/// `LEVELCODE/TAG(PROCESS): MESSAGE`.
pub open spec fn human_line(rec: Record) -> Seq<char> {
    let head = if rec.timestamp is Some {
        timestamp_seq(rec.timestamp.unwrap()) + " "@
    } else {
        Seq::<char>::empty()
    };
    head + seq![rec.level.code()] + "/"@ + rec.tag@ + "("@ + rec.process@ + "): "@
        + rec.message@
}

/// What each format renders for one record. `raw` is the verbatim line.
pub open spec fn format_spec(f: Format, rec: Record) -> Seq<char> {
    match f {
        Format::Raw => rec.raw@ + "\n"@,
        Format::Csv => csv_line(rec),
        Format::Html => html_line(rec),
        Format::Json => json_line(rec),
        Format::Human => human_line(rec) + "\n"@,
    }
}

/// Renders one record as one output line, newline included.
pub fn format_record(f: Format, rec: &Record) -> (r: String)
    requires
        rec.wf(),
    ensures
        r@ == format_spec(f, *rec),
{
    let mut out = String::new();
    match f {
        Format::Raw => {
            out.append(rec.raw.as_str());
            out.append("\n");
        },
        Format::Csv => {
            out.append("\"");
            let mut ts = String::new();
            push_timestamp(&mut ts, &rec.timestamp);
            escape_into(EscapeMode::Csv, ts.as_str(), &mut out);
            out.append("\",\"");
            escape_into(EscapeMode::Csv, rec.tag.as_str(), &mut out);
            out.append("\",\"");
            escape_into(EscapeMode::Csv, rec.process.as_str(), &mut out);
            out.append("\",\"");
            escape_into(EscapeMode::Csv, rec.thread.as_str(), &mut out);
            out.append("\",\"");
            push_level_name(&mut out, rec.level);
            out.append("\",\"");
            escape_into(EscapeMode::Csv, rec.message.as_str(), &mut out);
            out.append("\"\n");
        },
        Format::Html => {
            out.append("<tr><td>");
            let mut ts = String::new();
            push_timestamp(&mut ts, &rec.timestamp);
            escape_into(EscapeMode::Html, ts.as_str(), &mut out);
            out.append("</td><td>");
            escape_into(EscapeMode::Html, rec.tag.as_str(), &mut out);
            out.append("</td><td>");
            escape_into(EscapeMode::Html, rec.process.as_str(), &mut out);
            out.append("</td><td>");
            escape_into(EscapeMode::Html, rec.thread.as_str(), &mut out);
            out.append("</td><td>");
            push_level_name(&mut out, rec.level);
            out.append("</td><td>");
            escape_into(EscapeMode::Html, rec.message.as_str(), &mut out);
            out.append("</td></tr>\n");
        },
        Format::Json => {
            out.append("{\"timestamp\":\"");
            let mut ts = String::new();
            push_timestamp(&mut ts, &rec.timestamp);
            escape_into(EscapeMode::Json, ts.as_str(), &mut out);
            out.append("\",\"level\":\"");
            push_level_name(&mut out, rec.level);
            out.append("\",\"tag\":\"");
            escape_into(EscapeMode::Json, rec.tag.as_str(), &mut out);
            out.append("\",\"process\":\"");
            escape_into(EscapeMode::Json, rec.process.as_str(), &mut out);
            out.append("\",\"thread\":\"");
            escape_into(EscapeMode::Json, rec.thread.as_str(), &mut out);
            out.append("\",\"message\":\"");
            escape_into(EscapeMode::Json, rec.message.as_str(), &mut out);
            out.append("\",\"raw\":\"");
            escape_into(EscapeMode::Json, rec.raw.as_str(), &mut out);
            out.append("\"}\n");
        },
        Format::Human => {
            match &rec.timestamp {
                Some(t) => {
                    push_timestamp(&mut out, &rec.timestamp);
                    out.append(" ");
                },
                None => {},
            }
            push_char(&mut out, rec.level.code_exec());
            out.append("/");
            out.append(rec.tag.as_str());
            out.append("(");
            out.append(rec.process.as_str());
            out.append("): ");
            out.append(rec.message.as_str());
            out.append("\n");
            proof {
                assert(out@ =~= human_line(*rec) + "\n"@);
            }
        },
    }
    out
}

} // verus!
