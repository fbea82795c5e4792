//! What the signer of the game's pages decides before it signs: which
//! requests for an `Authorization` header it takes, and how the header is
//! written.

use vstd::prelude::*;
use vstd::string::*;
use crate::text::concat2;

verus! {

/// Why a request for a header is refused: it names no address, or no
/// method. `None` where it names both.
pub open spec fn header_refusal(url: Seq<char>, method: Seq<char>) -> Option<Seq<char>> {
    if url.len() == 0 {
        Some("URL cannot be empty"@)
    } else if method.len() == 0 {
        Some("Method cannot be empty"@)
    } else {
        None
    }
}

/// Checks a request for a header: the address and the method must be
/// there.
pub fn check_header_request(url: &str, method: &str) -> (r: Result<(), String>)
    ensures
        match header_refusal(url@, method@) {
            Some(why) => r matches Err(text) && text@ == why,
            None => r is Ok,
        },
{
    if url.unicode_len() == 0 {
        Err(String::from_str("URL cannot be empty"))
    } else if method.unicode_len() == 0 {
        Err(String::from_str("Method cannot be empty"))
    } else {
        Ok(())
    }
}

/// The value of the `Authorization` header that carries the signed event
/// `encoded_event`, which is given in Base64.
pub fn auth_header(encoded_event: &str) -> (header: String)
    ensures
        header@ == "Nostr "@ + encoded_event@,
{
    concat2("Nostr ", encoded_event)
}

} // verus!
