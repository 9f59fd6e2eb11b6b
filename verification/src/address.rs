//! Addresses: those of nodes on the network, and those of people to chat with.

use crate::error::{report, ErrorCodes, ErrorView, InterfaceError};
use crate::text::{accept, accepted, parses_to, read_text, text_of};
use multiaddr::Multiaddr;
use std::str::FromStr;
use vstd::prelude::*;

verus! {

/// What `Multiaddr::from_str` makes of a text: the address in its binary form, or the message of the
/// error.
pub uninterp spec fn multiaddr_of(text: Seq<char>) -> Result<Seq<u8>, Seq<char>>;

/// Calls `Multiaddr::from_str`, and hands out the address as `Multiaddr::to_vec` gives it. The claim:
/// the outcome depends on the text alone.
#[verifier::external_body]
pub(crate) fn parse_multiaddr(text: &str) -> (address: Result<Vec<u8>, String>)
    ensures
        address is Ok <==> multiaddr_of(text@) is Ok,
        address matches Ok(bytes) ==> bytes@ == multiaddr_of(text@)->Ok_0,
        address matches Err(e) ==> e@ == multiaddr_of(text@)->Err_0,
{
    match Multiaddr::from_str(text) {
        Ok(address) => Ok(address.to_vec()),
        Err(e) => Err(e.to_string()),
    }
}

/// `address` and `slot` are what may come of making an address from `receiver`.
pub open spec fn address_made<A, F: Fn(&str) -> Result<A, String>>(
    receiver: Seq<u8>,
    parse: F,
    codes: ErrorCodes,
    address: Option<A>,
    slot: i32,
) -> bool {
    match text_of(receiver) {
        Ok(_) => exists|parsed: Result<A, String>| #[trigger]
            parses_to(parse, receiver, parsed) && address == parsed.ok() && slot == codes.slot(
                accepted(parsed),
            ),
        Err(e) => address is None && slot == codes.code(ErrorView::NullError(e)),
    }
}

/// Makes the address of a person to chat with from the bytes of a C string. `parse` reads the text;
/// bytes that are no text never reach it, and count as a missing argument.
pub fn create_tari_address<A, F: Fn(&str) -> Result<A, String>>(
    receiver: &[u8],
    parse: F,
    error_out: &mut i32,
    codes: &ErrorCodes,
) -> (address: Option<A>)
    requires
        forall|text: &str| call_requires(parse, (text,)),
    ensures
        address_made(receiver@, parse, *codes, address, *final(error_out)),
{
    match read_text(receiver) {
        Ok(text) => {
            let parsed = parse(text);
            assert(parses_to(parse, receiver@, parsed));
            report(accept(parsed), error_out, codes)
        },
        Err(e) => report(Err(InterfaceError::NullError(e)), error_out, codes),
    }
}

} // verus!
