//! What holds of the library as a whole, whatever the directive and whatever git does.

use crate::expansion::{one_line, outcome, GeneratedConstant};
use crate::invoker::ProcessResult;
use crate::literal::{
    escaped, escaped_char, lemma_escaped_concat, lemma_escaped_plain, lemma_literal_value,
    literal_value, string_literal,
};
use crate::reporter::BuildDiagnostic;
use crate::text::{
    blank, lemma_trimmed_blank, lemma_trimmed_is_tight, lemma_trimmed_padded, lemma_trimmed_tight,
    tight, white_space,
};
use crate::{rev_parse, revision_of};
use vstd::prelude::*;
use vstd::utf8::{decode_utf8, valid_utf8};

verus! {

/// `process` is a git that ended with exit code zero and printed `hash` and a line feed,
/// where `hash` is not empty and holds no white space: what git prints for a revision
/// that it can resolve.
pub open spec fn printed(process: ProcessResult, hash: Seq<char>) -> bool {
    &&& process.succeeded()
    &&& valid_utf8(process.stdout@)
    &&& decode_utf8(process.stdout@) == hash + seq!['\n']
    &&& hash.len() > 0
    &&& forall|i: int| 0 <= i < hash.len() ==> !white_space(#[trigger] hash[i])
}

/// A directive without an argument, or with one that is white space alone, asks for
/// `HEAD`, and so does one that names `HEAD`: all of them stand for the same command.
pub proof fn blank_input_asks_for_head(input: Seq<char>, short: bool)
    requires
        blank(input),
    ensures
        revision_of(input) == "HEAD"@,
        revision_of("HEAD"@) == "HEAD"@,
        rev_parse(short, revision_of(input)) == rev_parse(short, revision_of("HEAD"@)),
{
    reveal_strlit("HEAD");
    lemma_trimmed_blank(input);
    lemma_trimmed_tight("HEAD"@);
}

/// White space around a revision's name does not change the command.
pub proof fn padding_is_ignored(lead: Seq<char>, name: Seq<char>, trail: Seq<char>, short: bool)
    requires
        blank(lead),
        blank(trail),
        name.len() > 0,
        !white_space(name.first()),
        !white_space(name.last()),
    ensures
        revision_of(lead + name + trail) == name,
        rev_parse(short, revision_of(lead + name + trail)) == rev_parse(short, revision_of(name)),
{
    lemma_trimmed_padded(lead, name, trail);
    lemma_trimmed_tight(name);
}

/// Where git resolved the revision and printed its hash, the constant holds that hash
/// and nothing else: it is not empty and holds no line feed.
pub proof fn hash_is_one_line(process: ProcessResult, hash: Seq<char>)
    requires
        printed(process, hash),
    ensures
        outcome(Ok(process)) == Ok::<Seq<char>, Seq<char>>(hash),
        hash.len() > 0,
        !hash.contains('\n'),
{
    let trail = seq!['\n'];
    assert(Seq::<char>::empty() + hash + trail == hash + trail);
    lemma_trimmed_padded(Seq::empty(), hash, trail);
}

/// Where the abbreviated hash that git printed in one run begins the full hash that it
/// printed in another, the short constant is a non-empty prefix of the full one. The same
/// holds of the generated literals, up to the quote that closes the short one.
pub proof fn short_hash_is_prefix_of_hash(
    short: ProcessResult,
    full: ProcessResult,
    short_hash: Seq<char>,
    hash: Seq<char>,
)
    requires
        printed(short, short_hash),
        printed(full, hash),
        short_hash.is_prefix_of(hash),
    ensures
        outcome(Ok(short)) == Ok::<Seq<char>, Seq<char>>(short_hash),
        outcome(Ok(full)) == Ok::<Seq<char>, Seq<char>>(hash),
        outcome(Ok(short))->Ok_0.len() > 0,
        outcome(Ok(short))->Ok_0.is_prefix_of(outcome(Ok(full))->Ok_0),
        string_literal(short_hash).drop_last().is_prefix_of(string_literal(hash)),
{
    hash_is_one_line(short, short_hash);
    hash_is_one_line(full, hash);
    let rest = hash.skip(short_hash.len() as int);
    assert(hash == short_hash + rest);
    lemma_escaped_concat(short_hash, rest);
    assert(string_literal(short_hash).drop_last() == seq!['"'] + escaped(short_hash));
}

/// Whatever came of running git, a constant is one line and not empty: output that is
/// empty or runs over several lines fails the build.
pub proof fn constant_is_one_line(spawned: Result<ProcessResult, String>)
    ensures
        outcome(spawned) matches Ok(value) ==> one_line(value),
{
}

/// Whatever git printed, a constant neither begins nor ends with white space: the line
/// feed that git puts after its answer never reaches the program.
pub proof fn constant_is_trimmed(spawned: Result<ProcessResult, String>)
    ensures
        outcome(spawned) matches Ok(value) ==> tight(value),
{
    if let Ok(process) = spawned {
        lemma_trimmed_is_tight(decode_utf8(process.stdout@));
    }
}

/// The literal that is generated for a constant is read by the compiler as the
/// constant's value: escaping loses nothing, and nothing in the value ends the literal.
pub proof fn constant_reads_back(constant: GeneratedConstant)
    requires
        constant.wf(),
    ensures
        literal_value(constant.literal@) == Some(constant.value@),
{
    lemma_literal_value(constant.value@);
}

/// The directive that is generated for a failure holds, between `compile_error!(` and
/// `)`, a literal that the compiler reads as the failure's message.
pub proof fn diagnostic_reads_back(diagnostic: BuildDiagnostic)
    requires
        diagnostic.wf(),
    ensures
        diagnostic.directive@ == "compile_error!("@ + string_literal(diagnostic.message@) + ")"@,
        literal_value(string_literal(diagnostic.message@)) == Some(diagnostic.message@),
{
    lemma_literal_value(diagnostic.message@);
}

/// A text without backslash, double quote and carriage return, as a hash is, is written
/// as it is: the literal is the text between two double quotes.
pub proof fn plain_text_is_quoted_as_it_is(s: Seq<char>)
    requires
        forall|i: int| 0 <= i < s.len() ==> #[trigger] s[i] != '\\' && s[i] != '"' && s[i] != '\r',
    ensures
        string_literal(s) == seq!['"'] + s + seq!['"'],
{
    assert forall|i: int| 0 <= i < s.len() implies escaped_char(#[trigger] s[i]) == seq![s[i]] by {
        assert(s[i] != '\\' && s[i] != '"' && s[i] != '\r');
    }
    lemma_escaped_plain(s);
}

/// Two runs of git that ended with exit code zero and printed the same give the same
/// constant or the same failure, whatever revision each was asked for.
pub proof fn same_output_same_outcome(one: ProcessResult, other: ProcessResult)
    requires
        one.succeeded(),
        other.succeeded(),
        one.stdout@ == other.stdout@,
    ensures
        outcome(Ok(one)) == outcome(Ok(other)),
{
}

} // verus!
