//! Reading the bytes that a tool printed as text.

use crate::reporter::{report, BuildDiagnostic};
use crate::text::{trim, trimmed};
use vstd::prelude::*;
use vstd::utf8::{decode_utf8, valid_utf8};

verus! {

/// The words in which `std` says why `bytes` are no UTF-8: what `Display` writes for the
/// error of `String::from_utf8`.
pub uninterp spec fn utf8_error_text(bytes: Seq<u8>) -> Seq<char>;

/// `String::from_utf8`, with its error rendered by `to_string`. It accepts exactly the
/// byte sequences that are well-formed UTF-8 and then returns the text that they encode;
/// for any other sequence it returns the error's own words.
#[verifier::external_body]
fn from_utf8(bytes: Vec<u8>) -> (checked: Result<String, String>)
    ensures
        checked is Ok <==> valid_utf8(bytes@),
        checked matches Ok(text) ==> text@ == decode_utf8(bytes@),
        checked matches Err(error) ==> error@ == utf8_error_text(bytes@),
{
    match String::from_utf8(bytes) {
        Ok(text) => Ok(text),
        Err(error) => Err(error.to_string()),
    }
}

/// The message of the diagnostic for output that is no text; `error` says why.
pub open spec fn decode_message(error: Seq<char>) -> Seq<char> {
    "git output is not valid utf-8: "@ + error
}

/// What stands for bytes that were meant as text and are none.
pub open spec fn placeholder() -> Seq<char> {
    "<invalid utf-8>"@
}

/// The text that `bytes` encode, or the placeholder where they encode none.
pub open spec fn text_or_placeholder(bytes: Seq<u8>) -> Seq<char> {
    if valid_utf8(bytes) {
        decode_utf8(bytes)
    } else {
        placeholder()
    }
}

/// What becomes of output once its encoding has been looked at: text is trimmed, and an
/// encoding error becomes a diagnostic that names it.
pub fn decoded(checked: Result<String, String>) -> (r: Result<String, BuildDiagnostic>)
    ensures
        match checked {
            Ok(text) => r matches Ok(t) && t@ == trimmed(text@),
            Err(error) => r matches Err(d) && d.wf() && d.message@ == decode_message(error@),
        },
{
    match checked {
        Ok(text) => Ok(String::from_str(trim(text.as_str()))),
        Err(error) => {
            let mut message = String::from_str("git output is not valid utf-8: ");
            message.append(error.as_str());
            Err(report(message.as_str()))
        },
    }
}

/// Reads `bytes` as text and trims it. Bytes that are no well-formed UTF-8 give a
/// diagnostic that names the fault, whatever the bytes are.
pub fn decode(bytes: Vec<u8>) -> (r: Result<String, BuildDiagnostic>)
    ensures
        if valid_utf8(bytes@) {
            r matches Ok(t) && t@ == trimmed(decode_utf8(bytes@))
        } else {
            r matches Err(d) && d.wf() && d.message@ == decode_message(utf8_error_text(bytes@))
        },
{
    decoded(from_utf8(bytes))
}

/// Reads `bytes` as text where they are text, and gives the placeholder where they are
/// not: for what a tool printed about its own failure, which is reported as well as it
/// can be read.
pub fn decode_or_placeholder(bytes: Vec<u8>) -> (text: String)
    ensures
        text@ == text_or_placeholder(bytes@),
{
    match from_utf8(bytes) {
        Ok(text) => text,
        Err(_) => String::from_str("<invalid utf-8>"),
    }
}

} // verus!
