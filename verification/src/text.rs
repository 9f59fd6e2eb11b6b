//! Text that arrives as the bytes of a C string.

use crate::error::{outcome_view, ErrorView, InterfaceError};
use vstd::prelude::*;
use vstd::utf8::{decode_utf8, valid_utf8};

verus! {

/// The message of the error with which `std::str::from_utf8` refuses the given bytes.
pub uninterp spec fn utf8_refusal(bytes: Seq<u8>) -> Seq<char>;

/// The text that `bytes` encode, or else the message of the refusal.
pub open spec fn text_of(bytes: Seq<u8>) -> Result<Seq<char>, Seq<char>> {
    if valid_utf8(bytes) {
        Ok(decode_utf8(bytes))
    } else {
        Err(utf8_refusal(bytes))
    }
}

/// Calls `std::str::from_utf8`. The claim: it succeeds exactly on well-formed UTF-8, then gives the
/// characters that the bytes encode, and else fails with an error whose message depends on the
/// bytes alone.
#[verifier::external_body]
pub(crate) fn read_text(bytes: &[u8]) -> (text: Result<&str, String>)
    ensures
        text is Ok <==> valid_utf8(bytes@),
        text matches Ok(s) ==> s@ == decode_utf8(bytes@),
        text matches Err(e) ==> e@ == utf8_refusal(bytes@),
{
    match std::str::from_utf8(bytes) {
        Ok(s) => Ok(s),
        Err(e) => Err(e.to_string()),
    }
}

/// `parsed` is what `parse` may give for the text that `bytes` encode.
pub open spec fn parses_to<A, F: Fn(&str) -> Result<A, String>>(
    parse: F,
    bytes: Seq<u8>,
    parsed: Result<A, String>,
) -> bool {
    exists|text: &str|
        text_of(bytes) == Ok::<Seq<char>, Seq<char>>(text@) && #[trigger] call_ensures(parse, (text,), parsed)
}

/// `parse` reads one value, or none, from any one text.
pub open spec fn reads_alike<A, F: Fn(&str) -> Result<A, String>>(parse: F) -> bool {
    forall|first: &str, second: &str, one: Result<A, String>, other: Result<A, String>|
        first@ == second@ && #[trigger] call_ensures(parse, (first,), one) && #[trigger] call_ensures(
            parse,
            (second,),
            other,
        ) ==> one.ok() == other.ok()
}

/// The error that a parser's refusal stands for, or else what it made of the text.
pub open spec fn accepted<A>(parsed: Result<A, String>) -> Result<A, ErrorView> {
    match parsed {
        Ok(value) => Ok(value),
        Err(e) => Err(ErrorView::InvalidArgument(e@)),
    }
}

/// Takes over what a parser made of a text.
pub fn accept<A>(parsed: Result<A, String>) -> (outcome: Result<A, InterfaceError>)
    ensures
        outcome_view(outcome) == accepted(parsed),
{
    match parsed {
        Ok(value) => Ok(value),
        Err(e) => Err(InterfaceError::InvalidArgument(e)),
    }
}

} // verus!
