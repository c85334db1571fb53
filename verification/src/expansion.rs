//! What a directive expands to: a constant, or a failure of the build.

use crate::decoder::{decode, decode_message, utf8_error_text};
use crate::invoker::{failure_message, run_git, spawn_message, ProcessResult};
use crate::literal::{quote, string_literal};
use crate::reporter::BuildDiagnostic;
use crate::reporter::report;
use crate::text::trimmed;
use vstd::prelude::*;
use vstd::utf8::{decode_utf8, valid_utf8};

verus! {

/// What a constant may hold: a text that is not empty and holds no line feed.
pub open spec fn one_line(text: Seq<char>) -> bool {
    text.len() > 0 && !text.contains('\n')
}

/// The message of the diagnostic for output that is text and cannot be a constant:
/// nothing at all, or more than one line.
pub open spec fn shape_message(text: Seq<char>) -> Seq<char> {
    if text.len() == 0 {
        "git output is empty"@
    } else {
        "git output is not a single line"@
    }
}

/// Whether `text` is not empty and holds no line feed.
pub fn is_one_line(text: &str) -> (b: bool)
    ensures
        b == one_line(text@),
{
    let mut found = false;
    for c in it: text.chars()
        invariant
            it.seq() == text@,
            found == text@.take(it.index()).contains('\n'),
    {
        proof {
            let k = it.index();
            assert(text@.take(k + 1) == text@.take(k).push(c));
            if c == '\n' {
                assert(text@.take(k + 1)[k] == '\n');
            }
        }
        if c == '\n' {
            found = true;
        }
    }
    proof {
        assert(text@.take(text@.len() as int) == text@);
    }
    !found && !text.is_empty()
}

/// A constant of the build: its value, and the string literal that is generated for it.
#[derive(Debug, PartialEq, Eq)]
pub struct GeneratedConstant {
    /// The text that the constant holds.
    pub value: String,
    /// The source text that is generated at the place of the directive.
    pub literal: String,
}

impl GeneratedConstant {
    /// The value is one line, not empty, and the literal is the one that stands for it.
    pub open spec fn wf(&self) -> bool {
        &&& one_line(self.value@)
        &&& self.literal@ == string_literal(self.value@)
    }

    /// The constant that holds `value`; none where `value` is empty or holds a line feed.
    pub fn new(value: &str) -> (made: Option<GeneratedConstant>)
        ensures
            made is Some <==> one_line(value@),
            made matches Some(constant) ==> constant.value@ == value@ && constant.wf(),
    {
        if is_one_line(value) {
            Some(GeneratedConstant { value: String::from_str(value), literal: quote(value) })
        } else {
            None
        }
    }
}

/// What a directive expands to.
#[derive(Debug, PartialEq, Eq)]
pub enum Expansion {
    /// A string constant at the place of the directive.
    Constant(GeneratedConstant),
    /// A directive that stops the compilation unit with a message.
    Failure(BuildDiagnostic),
}

impl View for Expansion {
    type V = Result<Seq<char>, Seq<char>>;

    /// The constant's value, or the failure's message.
    open spec fn view(&self) -> Result<Seq<char>, Seq<char>> {
        match self {
            Expansion::Constant(constant) => Ok(constant.value@),
            Expansion::Failure(diagnostic) => Err(diagnostic.message@),
        }
    }
}

impl Expansion {
    /// Whichever it holds, its source text is the one that belongs to it.
    pub open spec fn wf(&self) -> bool {
        match self {
            Expansion::Constant(constant) => constant.wf(),
            Expansion::Failure(diagnostic) => diagnostic.wf(),
        }
    }

    /// The source text that is generated at the place of the directive.
    pub open spec fn source_text(&self) -> Seq<char> {
        match self {
            Expansion::Constant(constant) => constant.literal@,
            Expansion::Failure(diagnostic) => diagnostic.directive@,
        }
    }

    /// Whether the build fails.
    pub fn is_failure(&self) -> (b: bool)
        ensures
            b == (self is Failure),
    {
        match self {
            Expansion::Constant(_) => false,
            Expansion::Failure(_) => true,
        }
    }

    /// The source text that is generated at the place of the directive.
    pub fn source(&self) -> (text: String)
        ensures
            text@ == self.source_text(),
    {
        match self {
            Expansion::Constant(constant) => constant.literal.clone(),
            Expansion::Failure(diagnostic) => diagnostic.directive.clone(),
        }
    }
}

/// What a run of git comes to, as a value: `Ok` with the constant's value, or `Err` with
/// the message of the failure.
///
/// Only a git that was started, ended with exit code zero and printed well-formed UTF-8
/// that holds, between the white space at its ends, one line and no more gives a
/// constant: that line.
pub open spec fn outcome(spawned: Result<ProcessResult, String>) -> Result<Seq<char>, Seq<char>> {
    match spawned {
        Err(error) => Err(spawn_message(error@)),
        Ok(process) => if !process.succeeded() {
            Err(failure_message(process.code(), process.stderr@))
        } else if !valid_utf8(process.stdout@) {
            Err(decode_message(utf8_error_text(process.stdout@)))
        } else if !one_line(trimmed(decode_utf8(process.stdout@))) {
            Err(shape_message(trimmed(decode_utf8(process.stdout@))))
        } else {
            Ok(trimmed(decode_utf8(process.stdout@)))
        },
    }
}

/// Turns the text that was read from git, or the diagnostic that came instead, into what
/// the directive expands to. Text of one line becomes a constant; text that is empty or
/// holds a line feed fails the build. A diagnostic is handed on as it is.
pub fn emit(decoded: Result<String, BuildDiagnostic>) -> (expansion: Expansion)
    ensures
        match decoded {
            Ok(text) => if one_line(text@) {
                expansion matches Expansion::Constant(c) && c.value@ == text@ && c.wf()
            } else {
                expansion matches Expansion::Failure(d) && d.wf() && d.message@ == shape_message(
                    text@,
                )
            },
            Err(diagnostic) => expansion == Expansion::Failure(diagnostic),
        },
{
    match decoded {
        Ok(text) => match GeneratedConstant::new(text.as_str()) {
            Some(constant) => Expansion::Constant(constant),
            None => if text.as_str().is_empty() {
                Expansion::Failure(report("git output is empty"))
            } else {
                Expansion::Failure(report("git output is not a single line"))
            },
        },
        Err(diagnostic) => Expansion::Failure(diagnostic),
    }
}

/// What the directive expands to, given what came of running git for it.
///
/// A constant is generated exactly when git was started, ended with exit code zero and
/// printed text that is one line once the white space at its ends is taken away.
/// Anything else fails the build: no constant is ever made up in place of one that git
/// did not give, and none is empty or runs over several lines.
pub fn expand(spawned: Result<ProcessResult, String>) -> (expansion: Expansion)
    ensures
        expansion.wf(),
        expansion@ == outcome(spawned),
        expansion is Constant <==> (spawned matches Ok(process) && process.succeeded()
            && valid_utf8(process.stdout@) && one_line(trimmed(decode_utf8(process.stdout@)))),
{
    match run_git(spawned) {
        Ok(bytes) => emit(decode(bytes)),
        Err(diagnostic) => Expansion::Failure(diagnostic),
    }
}

} // verus!
