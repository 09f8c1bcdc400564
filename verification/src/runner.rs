//! The runner: supervision state for a process-backed source. The runner
//! decides, line by line and exit by exit, whether to deliver, suppress,
//! respawn or stop; spawning, reading and terminating the child process are
//! the caller's transport work.
//!
//! Duplicate suppression: when `skip` is enabled, the runner remembers the
//! raw content of the last line it delivered. After a respawn it suppresses
//! every line until it sees one exactly equal to the remembered line, then
//! resumes delivery with the line after the match. If no match is seen
//! within `lookback_limit` suppressed lines, the runner abandons the match
//! and resumes unconditional delivery, so no restart can starve the stream
//! forever.

use vstd::prelude::*;
use vstd::string::StringExecFns;

use crate::str_eq;

verus! {

/// How many non-matching lines a skip window may suppress before the match
/// is abandoned.
pub const DEFAULT_LOOKBACK: u64 = 10000;

/// Phase of the supervised stream.
#[derive(Clone, Copy, PartialEq, Eq, Structural, Debug)]
pub enum RunnerPhase {
    /// Lines are delivered as they arrive.
    Running,
    /// After a respawn with `skip` enabled: lines are suppressed until the
    /// remembered line is seen again or the lookback budget is spent.
    Skipping,
    /// The stream has ended; no further lines are delivered.
    Stopped,
}

/// The runner's decision state. It owns no transport handle; the caller
/// feeds it events and obeys its decisions.
pub struct Runner {
    /// Respawn the command when the child exits.
    pub restart: bool,
    /// Suppress re-delivered history after a respawn.
    pub skip: bool,
    /// Bound of the skip window, in suppressed lines.
    pub lookback_limit: u64,
    /// Current phase.
    pub phase: RunnerPhase,
    /// Raw content of the last delivered line.
    pub last_line: Option<String>,
    /// Lines suppressed in the current skip window.
    pub skipped: u64,
}

impl Runner {
    /// A skip window always has a remembered line and an unspent budget.
    pub open spec fn wf(self) -> bool {
        self.phase is Skipping ==> (self.last_line is Some && self.skipped
            <= self.lookback_limit)
    }

    /// The remembered line is exactly `line` (byte-for-byte on the raw
    /// content, not on parsed fields).
    pub open spec fn remembers(self, line: Seq<char>) -> bool {
        self.last_line matches Some(l) && l@ == line
    }

    /// A fresh runner, ready to deliver.
    pub fn new(restart: bool, skip: bool, lookback_limit: u64) -> (r: Runner)
        ensures
            r.wf(),
            r.restart == restart,
            r.skip == skip,
            r.lookback_limit == lookback_limit,
            r.phase is Running,
            r.last_line is None,
    {
        Runner {
            restart,
            skip,
            lookback_limit,
            phase: RunnerPhase::Running,
            last_line: None,
            skipped: 0,
        }
    }

    /// One raw line arrived from the child. Returns whether the caller
    /// delivers it downstream.
    pub fn on_line(&mut self, line: &str) -> (deliver: bool)
        requires
            old(self).wf(),
            !(old(self).phase is Stopped),
        ensures
            final(self).wf(),
            final(self).restart == old(self).restart,
            final(self).skip == old(self).skip,
            final(self).lookback_limit == old(self).lookback_limit,
            old(self).phase is Running ==> {
                &&& deliver
                &&& final(self).phase is Running
                &&& final(self).remembers(line@)
            },
            old(self).phase is Skipping && old(self).remembers(line@) ==> {
                &&& !deliver
                &&& final(self).phase is Running
                &&& final(self).last_line == old(self).last_line
            },
            old(self).phase is Skipping && !old(self).remembers(line@) && old(self).skipped
                >= old(self).lookback_limit ==> {
                &&& deliver
                &&& final(self).phase is Running
                &&& final(self).remembers(line@)
            },
            old(self).phase is Skipping && !old(self).remembers(line@) && old(self).skipped
                < old(self).lookback_limit ==> {
                &&& !deliver
                &&& final(self).phase is Skipping
                &&& final(self).skipped == old(self).skipped + 1
                &&& final(self).last_line == old(self).last_line
            },
    {
        match self.phase {
            RunnerPhase::Running => {
                self.last_line = Some(line.to_owned());
                true
            },
            RunnerPhase::Skipping => {
                let matched = match &self.last_line {
                    Some(l) => str_eq(l.as_str(), line),
                    None => false,
                };
                if matched {
                    self.phase = RunnerPhase::Running;
                    false
                } else if self.skipped >= self.lookback_limit {
                    self.phase = RunnerPhase::Running;
                    self.last_line = Some(line.to_owned());
                    true
                } else {
                    self.skipped = self.skipped + 1;
                    false
                }
            },
            RunnerPhase::Stopped => false,
        }
    }

    /// The child exited. Returns whether the caller respawns the same
    /// command; when it does not, the runner is stopped and the exit is
    /// normal end-of-stream.
    pub fn on_exit(&mut self) -> (respawn: bool)
        requires
            old(self).wf(),
            !(old(self).phase is Stopped),
        ensures
            final(self).wf(),
            final(self).restart == old(self).restart,
            final(self).skip == old(self).skip,
            final(self).lookback_limit == old(self).lookback_limit,
            final(self).last_line == old(self).last_line,
            respawn == old(self).restart,
            !old(self).restart ==> final(self).phase is Stopped,
            old(self).restart && old(self).skip && old(self).last_line is Some ==> {
                &&& final(self).phase is Skipping
                &&& final(self).skipped == 0
            },
            old(self).restart && !(old(self).skip && old(self).last_line is Some)
                ==> final(self).phase is Running,
    {
        if self.restart {
            if self.skip && self.last_line.is_some() {
                self.phase = RunnerPhase::Skipping;
                self.skipped = 0;
            } else {
                self.phase = RunnerPhase::Running;
            }
            true
        } else {
            self.phase = RunnerPhase::Stopped;
            false
        }
    }

    /// Explicit shutdown: the caller has terminated the live child; the
    /// runner reports `Stopped`.
    pub fn shutdown(&mut self)
        ensures
            final(self).wf(),
            final(self).phase is Stopped,
            final(self).restart == old(self).restart,
            final(self).skip == old(self).skip,
            final(self).lookback_limit == old(self).lookback_limit,
            final(self).last_line == old(self).last_line,
    {
        self.phase = RunnerPhase::Stopped;
    }
}

} // verus!
