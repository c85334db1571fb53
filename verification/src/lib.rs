//! Git revision hashes as constants of a build.
//!
//! A directive names a revision, or none. The library says which git command answers it
//! ([`git_hash`], [`git_short_hash`]) and what the answer means for the build
//! ([`expansion::expand`]): a string constant that holds the hash, or a directive that
//! stops the build with a message. Running the command is left to the caller.

use crate::invoker::Invocation;
use crate::text::{trim, trimmed};
use vstd::prelude::*;

pub mod decoder;
pub mod expansion;
pub mod invoker;
pub mod laws;
pub mod literal;
pub mod reporter;
pub mod text;

verus! {

/// The revision that a directive with the argument `input` asks for: the argument
/// without the white space around it, or `HEAD` where nothing is left of it.
pub open spec fn revision_of(input: Seq<char>) -> Seq<char> {
    if trimmed(input).len() == 0 {
        "HEAD"@
    } else {
        trimmed(input)
    }
}

/// The arguments for git that make it print the hash of `revision`, abbreviated where
/// `short` is set.
pub open spec fn rev_parse(short: bool, revision: Seq<char>) -> Seq<Seq<char>> {
    if short {
        seq!["rev-parse"@, "--short"@, revision]
    } else {
        seq!["rev-parse"@, revision]
    }
}

/// The revision that a directive with the argument `input` asks for.
pub fn revision(input: &str) -> (name: String)
    ensures
        name@ == revision_of(input@),
{
    let token = trim(input);
    if token.is_empty() {
        String::from_str("HEAD")
    } else {
        String::from_str(token)
    }
}

/// The git command that answers a directive for the full hash of a revision. `input` is
/// the directive's argument: the revision's name, or nothing for `HEAD`.
pub fn git_hash(input: &str) -> (command: Invocation)
    ensures
        command.program@ == "git"@,
        command.arguments() == rev_parse(false, revision_of(input@)),
{
    let mut args: Vec<String> = Vec::new();
    args.push(String::from_str("rev-parse"));
    args.push(revision(input));
    let command = Invocation { program: String::from_str("git"), args };
    assert(command.arguments() =~= rev_parse(false, revision_of(input@)));
    command
}

/// The git command that answers a directive for the abbreviated hash of a revision.
/// `input` is the directive's argument: the revision's name, or nothing for `HEAD`.
pub fn git_short_hash(input: &str) -> (command: Invocation)
    ensures
        command.program@ == "git"@,
        command.arguments() == rev_parse(true, revision_of(input@)),
{
    let mut args: Vec<String> = Vec::new();
    args.push(String::from_str("rev-parse"));
    args.push(String::from_str("--short"));
    args.push(revision(input));
    let command = Invocation { program: String::from_str("git"), args };
    assert(command.arguments() =~= rev_parse(true, revision_of(input@)));
    command
}

} // verus!
