//! The structured log entry type: severity levels, timestamps and records.

use vstd::prelude::*;
use vstd::string::StrSliceExecFns;

verus! {

/// Severity of a log record, totally ordered from `Trace` (lowest) up to
/// `Assert` (highest).
#[derive(Clone, Copy, PartialEq, Eq, Structural, Debug)]
pub enum Level {
    Trace,
    Debug,
    Info,
    Warn,
    Error,
    Fatal,
    Assert,
}

impl Level {
    /// Position of a level in the total order
    /// `Trace < Debug < Info < Warn < Error < Fatal < Assert`.
    pub open spec fn rank(self) -> int {
        match self {
            Level::Trace => 0,
            Level::Debug => 1,
            Level::Info => 2,
            Level::Warn => 3,
            Level::Error => 4,
            Level::Fatal => 5,
            Level::Assert => 6,
        }
    }

    /// `self` is at least as severe as `other`.
    pub open spec fn at_least(self, other: Level) -> bool {
        self.rank() >= other.rank()
    }

    /// Executable comparison under the severity order.
    pub fn ge(self, other: Level) -> (r: bool)
        ensures
            r == self.at_least(other),
    {
        self.rank_exec() >= other.rank_exec()
    }

    /// Executable rank, equal to the spec-level rank.
    pub fn rank_exec(self) -> (r: u8)
        ensures
            r as int == self.rank(),
    {
        match self {
            Level::Trace => 0,
            Level::Debug => 1,
            Level::Info => 2,
            Level::Warn => 3,
            Level::Error => 4,
            Level::Fatal => 5,
            Level::Assert => 6,
        }
    }

    /// The one-letter code a log line carries for each level. `V` (verbose)
    /// is treated as the lowest severity, `Trace`.
    pub open spec fn of_code(c: char) -> Option<Level> {
        match c {
            'T' => Some(Level::Trace),
            'V' => Some(Level::Trace),
            'D' => Some(Level::Debug),
            'I' => Some(Level::Info),
            'W' => Some(Level::Warn),
            'E' => Some(Level::Error),
            'F' => Some(Level::Fatal),
            'A' => Some(Level::Assert),
            _ => None,
        }
    }

    /// Executable form of [`Level::of_code`].
    pub fn from_code(c: char) -> (r: Option<Level>)
        ensures
            r == Level::of_code(c),
    {
        match c {
            'T' => Some(Level::Trace),
            'V' => Some(Level::Trace),
            'D' => Some(Level::Debug),
            'I' => Some(Level::Info),
            'W' => Some(Level::Warn),
            'E' => Some(Level::Error),
            'F' => Some(Level::Fatal),
            'A' => Some(Level::Assert),
            _ => None,
        }
    }

    /// The one-letter code of a level, the inverse of [`Level::of_code`]
    /// (with `Trace` rendered as `T`).
    pub open spec fn code(self) -> char {
        match self {
            Level::Trace => 'T',
            Level::Debug => 'D',
            Level::Info => 'I',
            Level::Warn => 'W',
            Level::Error => 'E',
            Level::Fatal => 'F',
            Level::Assert => 'A',
        }
    }

    /// Executable form of [`Level::code`].
    pub fn code_exec(self) -> (r: char)
        ensures
            r == self.code(),
    {
        match self {
            Level::Trace => 'T',
            Level::Debug => 'D',
            Level::Info => 'I',
            Level::Warn => 'W',
            Level::Error => 'E',
            Level::Fatal => 'F',
            Level::Assert => 'A',
        }
    }
}

/// The level a `--level` argument denotes: a full lower-case name or a
/// one-letter code.
pub open spec fn level_of_name(s: Seq<char>) -> Option<Level> {
    if s == "trace"@ {
        Some(Level::Trace)
    } else if s == "debug"@ {
        Some(Level::Debug)
    } else if s == "info"@ {
        Some(Level::Info)
    } else if s == "warn"@ {
        Some(Level::Warn)
    } else if s == "error"@ {
        Some(Level::Error)
    } else if s == "fatal"@ {
        Some(Level::Fatal)
    } else if s == "assert"@ {
        Some(Level::Assert)
    } else if s.len() == 1 {
        Level::of_code(s[0])
    } else {
        None
    }
}

impl Level {
    /// Executable form of [`level_of_name`].
    pub fn from_name(s: &str) -> (r: Option<Level>)
        ensures
            r == level_of_name(s@),
    {
        if crate::str_eq(s, "trace") {
            Some(Level::Trace)
        } else if crate::str_eq(s, "debug") {
            Some(Level::Debug)
        } else if crate::str_eq(s, "info") {
            Some(Level::Info)
        } else if crate::str_eq(s, "warn") {
            Some(Level::Warn)
        } else if crate::str_eq(s, "error") {
            Some(Level::Error)
        } else if crate::str_eq(s, "fatal") {
            Some(Level::Fatal)
        } else if crate::str_eq(s, "assert") {
            Some(Level::Assert)
        } else if s.unicode_len() == 1 {
            Level::from_code(s.get_char(0))
        } else {
            None
        }
    }
}

/// A device-reported time of day, as extracted from a log line:
/// best-effort plain fields, not validated as a calendar date beyond
/// the digit counts of the source text.
#[derive(Clone, Copy, PartialEq, Eq, Structural, Debug)]
pub struct Timestamp {
    pub month: u8,
    pub day: u8,
    pub hour: u8,
    pub minute: u8,
    pub second: u8,
    pub millisecond: u16,
}

impl Timestamp {
    /// Each field holds what two (three for milliseconds) decimal digits
    /// can express.
    pub open spec fn wf(self) -> bool {
        self.month < 100 && self.day < 100 && self.hour < 100 && self.minute < 100
            && self.second < 100 && self.millisecond < 1000
    }
}

/// One structured log entry. `raw` is the verbatim input line and the sole
/// lossless representation; every other field is best-effort extraction.
pub struct Record {
    pub timestamp: Option<Timestamp>,
    pub level: Level,
    pub tag: String,
    pub process: String,
    pub thread: String,
    pub message: String,
    pub raw: String,
}

impl Record {
    /// The timestamp, when present, is well formed. The parser only
    /// produces such records.
    pub open spec fn wf(self) -> bool {
        self.timestamp matches Some(ts) ==> ts.wf()
    }

    /// The record a parser returns when no grammar matches: the verbatim
    /// line, level `Debug`, everything else empty.
    pub open spec fn is_fallback_for(self, line: Seq<char>) -> bool {
        &&& self.raw@ == line
        &&& self.timestamp is None
        &&& self.level == Level::Debug
        &&& self.tag@ == Seq::<char>::empty()
        &&& self.process@ == Seq::<char>::empty()
        &&& self.thread@ == Seq::<char>::empty()
        &&& self.message@ == Seq::<char>::empty()
    }
}

} // verus!
