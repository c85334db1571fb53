//! Failures of the build: the directive that makes the compiler stop with a message.

use crate::literal::{quote, string_literal};
use vstd::prelude::*;

verus! {

/// The source text of the directive that stops the compilation unit it stands in and
/// has the compiler report `message`.
pub open spec fn directive(message: Seq<char>) -> Seq<char> {
    "compile_error!("@ + string_literal(message) + ")"@
}

/// A failure of the build: the message to report, and the directive that reports it.
#[derive(Debug, PartialEq, Eq)]
pub struct BuildDiagnostic {
    /// What went wrong.
    pub message: String,
    /// The source text that is generated in place of a constant.
    pub directive: String,
}

impl BuildDiagnostic {
    /// The directive is the one that reports the message.
    pub open spec fn wf(&self) -> bool {
        self.directive@ == directive(self.message@)
    }
}

/// The diagnostic that reports `message`. The message is written as a string literal, so
/// no character of it can end the directive early or change what the compiler reads.
pub fn report(message: &str) -> (diagnostic: BuildDiagnostic)
    ensures
        diagnostic.message@ == message@,
        diagnostic.wf(),
{
    let mut directive = String::from_str("compile_error!(");
    let literal = quote(message);
    directive.append(literal.as_str());
    directive.append(")");
    BuildDiagnostic { message: String::from_str(message), directive }
}

} // verus!
