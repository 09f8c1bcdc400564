//! The source abstraction: where raw lines originate. A source
//! specification is validated eagerly, before the pipeline is allowed to
//! start: the serial endpoint grammar
//! `serial://<path>@<baud>,<databits><parity><stopbits>` (for example
//! `serial://COM3@115200,8N1`) must parse, so bad configuration fails
//! before any output is produced rather than mid-stream.

use vstd::prelude::*;
use vstd::string::StrSliceExecFns;
use vstd::string::StringExecFns;

use crate::dec_val;
use crate::digit_val;
use crate::parse_u64_digits;
use crate::parser::scan_digits;
use crate::parser::scan_digits_exec;
use crate::parser::scan_until;
use crate::parser::scan_until_exec;

verus! {

/// Parity of a serial endpoint.
#[derive(Clone, Copy, PartialEq, Eq, Structural, Debug)]
pub enum Parity {
    ParityNone,
    ParityOdd,
    ParityEven,
}

/// A validated serial endpoint: device path, baud rate and character
/// framing.
pub struct SerialSettings {
    pub path: String,
    pub baud: u32,
    pub data_bits: u8,
    pub parity: Parity,
    pub stop_bits: u8,
}

impl SerialSettings {
    /// What the grammar can produce: framing within the accepted ranges.
    pub open spec fn wf(self) -> bool {
        &&& 5 <= self.data_bits <= 8
        &&& 1 <= self.stop_bits <= 2
    }
}

/// The nine characters of the scheme prefix `serial://`.
pub open spec fn serial_prefix_ok(s: Seq<char>) -> bool {
    &&& s.len() >= 9
    &&& s[0] == 's' && s[1] == 'e' && s[2] == 'r' && s[3] == 'i' && s[4] == 'a' && s[5] == 'l'
    &&& s[6] == ':' && s[7] == '/' && s[8] == '/'
}

/// Position of the `@` that ends the device path.
pub open spec fn serial_at(s: Seq<char>) -> int {
    scan_until(s, 9, '@')
}

/// End of the baud digit run.
pub open spec fn serial_baud_end(s: Seq<char>) -> int {
    scan_digits(s, serial_at(s) + 1)
}

/// The parity a framing character denotes.
pub open spec fn parity_of(c: char) -> Option<Parity> {
    match c {
        'N' => Some(Parity::ParityNone),
        'O' => Some(Parity::ParityOdd),
        'E' => Some(Parity::ParityEven),
        _ => None,
    }
}

/// The serial endpoint grammar:
/// `serial://<path>@<baud>,<databits><parity><stopbits>` — a non-empty
/// path, a non-empty decimal baud rate that fits a `u32`, and exactly three
/// framing characters: data bits `5`-`8`, parity `N`/`O`/`E`, stop bits
/// `1`-`2`.
pub open spec fn serial_matches(s: Seq<char>) -> bool {
    let at = serial_at(s);
    let be = serial_baud_end(s);
    &&& serial_prefix_ok(s)
    &&& at > 9
    &&& at < s.len()
    &&& be > at + 1
    &&& dec_val(s, at + 1, be) <= u32::MAX
    &&& s.len() == be + 4
    &&& s[be] == ','
    &&& '5' <= s[be + 1] <= '8'
    &&& parity_of(s[be + 2]) is Some
    &&& '1' <= s[be + 3] <= '2'
}

/// What a parsed [`SerialSettings`] holds of a matching endpoint text.
pub open spec fn serial_fields(s: Seq<char>, st: SerialSettings) -> bool {
    let at = serial_at(s);
    let be = serial_baud_end(s);
    &&& st.path@ == s.subrange(9, at)
    &&& st.baud as int == dec_val(s, at + 1, be)
    &&& st.data_bits as int == digit_val(s[be + 1])
    &&& parity_of(s[be + 2]) == Some(st.parity)
    &&& st.stop_bits as int == digit_val(s[be + 3])
}

/// Parses a serial endpoint specification. Succeeds exactly on texts the
/// grammar accepts.
pub fn parse_serial_arg(arg: &str) -> (r: Option<SerialSettings>)
    ensures
        r is Some <==> serial_matches(arg@),
        r matches Some(st) ==> st.wf() && serial_fields(arg@, st),
{
    let n = arg.unicode_len();
    if n < 9 {
        return None;
    }
    if !(arg.get_char(0) == 's' && arg.get_char(1) == 'e' && arg.get_char(2) == 'r'
        && arg.get_char(3) == 'i' && arg.get_char(4) == 'a' && arg.get_char(5) == 'l'
        && arg.get_char(6) == ':' && arg.get_char(7) == '/' && arg.get_char(8) == '/') {
        return None;
    }
    let at = scan_until_exec(arg, 9, '@');
    if at <= 9 || at >= n {
        return None;
    }
    let be = scan_digits_exec(arg, at + 1);
    if be <= at + 1 {
        return None;
    }
    let baud_wide = match parse_u64_digits(arg, at + 1, be) {
        Some(v) => v,
        None => {
            proof {
                crate::lemma_dec_val_nonneg(arg@, at + 1, be as int);
            }
            return None;
        },
    };
    if baud_wide > 0xffff_ffff {
        return None;
    }
    let baud = baud_wide as u32;
    if !(n - be == 4 && arg.get_char(be) == ',') {
        return None;
    }
    let db_c = arg.get_char(be + 1);
    if !('5' <= db_c && db_c <= '8') {
        return None;
    }
    let parity = match parity_from(arg.get_char(be + 2)) {
        Some(p) => p,
        None => {
            return None;
        },
    };
    let sb_c = arg.get_char(be + 3);
    if !('1' <= sb_c && sb_c <= '2') {
        return None;
    }
    let data_bits = ((db_c as u32) - 48) as u8;
    let stop_bits = ((sb_c as u32) - 48) as u8;
    Some(
        SerialSettings {
            path: String::from_str(arg.substring_char(9, at)),
            baud,
            data_bits,
            parity,
            stop_bits,
        },
    )
}

/// Executable [`parity_of`].
fn parity_from(c: char) -> (r: Option<Parity>)
    ensures
        r == parity_of(c),
{
    match c {
        'N' => Some(Parity::ParityNone),
        'O' => Some(Parity::ParityOdd),
        'E' => Some(Parity::ParityEven),
        _ => None,
    }
}

/// A tagged variant describing where raw lines originate.
pub enum SourceSpec {
    /// Read standard input.
    Stdin,
    /// Open the named serial endpoint and read lines from it.
    Serial(SerialSettings),
    /// Read the named file.
    File(String),
    /// Spawn the command and read its standard output.
    Process(String),
}

/// The text `-`, which selects standard input as the source.
pub open spec fn is_dash(s: Seq<char>) -> bool {
    s.len() == 1 && s[0] == '-'
}

/// Chooses the source for a run: an explicit `--input` names a serial
/// endpoint or a file; otherwise the positional command is `-` for standard
/// input, a serial endpoint, or a command to spawn; with nothing given the
/// default capture command is spawned.
pub fn resolve_source(input: Option<&String>, command: Option<&String>) -> (r: SourceSpec)
    ensures
        input matches Some(i) ==> {
            if serial_matches(i@) {
                r matches SourceSpec::Serial(st) && st.wf() && serial_fields(i@, st)
            } else {
                r matches SourceSpec::File(f) && f@ == i@
            }
        },
        input is None ==> (command matches Some(c) ==> {
            if is_dash(c@) {
                r is Stdin
            } else if serial_matches(c@) {
                r matches SourceSpec::Serial(st) && st.wf() && serial_fields(c@, st)
            } else {
                r matches SourceSpec::Process(p) && p@ == c@
            }
        }),
        input is None && command is None ==> (r matches SourceSpec::Process(p) && p@
            == "adb logcat -b all"@),
{
    match input {
        Some(i) => {
            match parse_serial_arg(i.as_str()) {
                Some(st) => SourceSpec::Serial(st),
                None => SourceSpec::File(i.clone()),
            }
        },
        None => {
            match command {
                Some(c) => {
                    if c.as_str().unicode_len() == 1 && c.as_str().get_char(0) == '-' {
                        SourceSpec::Stdin
                    } else {
                        match parse_serial_arg(c.as_str()) {
                            Some(st) => SourceSpec::Serial(st),
                            None => SourceSpec::Process(c.clone()),
                        }
                    }
                },
                None => SourceSpec::Process(String::from_str("adb logcat -b all")),
            }
        },
    }
}

} // verus!
