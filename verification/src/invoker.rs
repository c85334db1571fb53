//! One run of git: the command to run, what came of it, and what that means for the build.

use crate::decoder::{decode_or_placeholder, text_or_placeholder};
use crate::reporter::{report, BuildDiagnostic};
use crate::text::{decimal, to_decimal};
use vstd::prelude::*;

verus! {

/// A command line: the program to start and the arguments to hand it, in order.
#[derive(Debug, PartialEq, Eq)]
pub struct Invocation {
    /// The program to start.
    pub program: String,
    /// The arguments to hand it, in order.
    pub args: Vec<String>,
}

impl Invocation {
    /// The arguments as texts.
    pub open spec fn arguments(&self) -> Seq<Seq<char>> {
        Seq::new(self.args@.len(), |i: int| self.args@[i]@)
    }
}

/// What a process left behind when it ended.
#[derive(Debug, PartialEq, Eq)]
pub struct ProcessResult {
    /// The exit code; `None` where the process ended without one.
    pub status: Option<i32>,
    /// What the process wrote to its standard output.
    pub stdout: Vec<u8>,
    /// What the process wrote to its standard error.
    pub stderr: Vec<u8>,
}

impl ProcessResult {
    /// The process ended with exit code zero.
    pub open spec fn succeeded(&self) -> bool {
        self.status == Some(0i32)
    }

    /// The exit code to report: the process's own, or 1 where it has none.
    pub open spec fn code(&self) -> int {
        match self.status {
            Some(code) => code as int,
            None => 1,
        }
    }

    /// Whether the process ended with exit code zero.
    pub fn success(&self) -> (b: bool)
        ensures
            b == self.succeeded(),
    {
        match self.status {
            Some(code) => code == 0,
            None => false,
        }
    }

    /// The exit code to report.
    pub fn exit_code(&self) -> (code: i32)
        ensures
            code == self.code(),
    {
        match self.status {
            Some(code) => code,
            None => 1,
        }
    }
}

/// The message for a git that could not be started; `error` is what the system said.
pub open spec fn spawn_message(error: Seq<char>) -> Seq<char> {
    "git execution error: "@ + error
}

/// The message for a git that ended with exit code `code` and wrote `stderr` to its
/// standard error.
pub open spec fn failure_message(code: int, stderr: Seq<u8>) -> Seq<char> {
    "git failed with status "@ + decimal(code) + ":\n "@ + text_or_placeholder(stderr)
}

/// What one run of git means for the build. `spawned` is what came of starting git and
/// waiting for it: the ended process, or the system's words where none was started.
///
/// A git that ended with exit code zero gives what it printed, byte for byte. Anything
/// else gives a diagnostic: for a git that could not be started the system's words, for
/// one that failed its exit code and what it wrote to its standard error.
pub fn run_git(spawned: Result<ProcessResult, String>) -> (r: Result<Vec<u8>, BuildDiagnostic>)
    ensures
        match spawned {
            Ok(process) => if process.succeeded() {
                r == Ok::<Vec<u8>, BuildDiagnostic>(process.stdout)
            } else {
                r matches Err(d) && d.wf() && d.message@ == failure_message(
                    process.code(),
                    process.stderr@,
                )
            },
            Err(error) => r matches Err(d) && d.wf() && d.message@ == spawn_message(error@),
        },
{
    match spawned {
        Ok(process) => {
            if process.success() {
                Ok(process.stdout)
            } else {
                let mut message = String::from_str("git failed with status ");
                let status = to_decimal(process.exit_code());
                message.append(status.as_str());
                message.append(":\n ");
                let stderr = decode_or_placeholder(process.stderr);
                message.append(stderr.as_str());
                Err(report(message.as_str()))
            }
        },
        Err(error) => {
            let mut message = String::from_str("git execution error: ");
            message.append(error.as_str());
            Err(report(message.as_str()))
        },
    }
}

} // verus!
