//! Fresh identifiers for sessions, configurations and payments.

use vstd::prelude::*;
use vstd::string::*;
use crate::clock::Instant;
use crate::text::concat2;

verus! {

/// Whether `c` is a digit of lower-case hexadecimal.
pub open spec fn is_lower_hex(c: char) -> bool {
    ('0' <= c && c <= '9') || ('a' <= c && c <= 'f')
}

/// Whether `text` has the form of a version 7 UUID written with hyphens:
/// 36 characters in groups of 8, 4, 4, 4 and 12 lower-case hexadecimal
/// digits with a hyphen between two groups, the third group beginning with
/// the version, 7, and the fourth with the variant, one of 8, 9, a and b.
pub open spec fn is_uuid_v7_text(text: Seq<char>) -> bool {
    &&& text.len() == 36
    &&& forall|i: int|
        0 <= i < 36 ==> if i == 8 || i == 13 || i == 18 || i == 23 {
            #[trigger] text[i] == '-'
        } else {
            is_lower_hex(#[trigger] text[i])
        }
    &&& text[14] == '7'
    &&& text[19] == '8' || text[19] == '9' || text[19] == 'a' || text[19] == 'b'
}

/// `uuid::Timestamp::from_unix` without a counter, `uuid::Uuid::new_v7` on
/// that timestamp, and `to_string`: a new version 7 UUID of the given time
/// as text. Which UUID it is depends on chance; the contract claims only
/// the form in which the crate writes every UUID of that version.
#[verifier::external_body]
fn uuid_v7_text(unix_seconds: u64, subsec_nanos: u32) -> (text: String)
    ensures
        is_uuid_v7_text(text@),
{
    let stamp = uuid::Timestamp::from_unix(uuid::NoContext, unix_seconds, subsec_nanos);
    uuid::Uuid::new_v7(stamp).to_string()
}

/// A new identifier made at `now`: a version 7 UUID in its hyphenated form,
/// which begins with the time. Such an identifier counts time from 1970, so
/// there is none for an earlier instant.
pub fn fresh_token(now: &Instant) -> (token: Option<String>)
    ensures
        token is Some <==> now.nanos() >= 0,
        token matches Some(text) ==> is_uuid_v7_text(text@),
{
    let nanos = now.unix_nanos();
    if nanos < 0 {
        None
    } else {
        let seconds: u64 = (nanos / 1_000_000_000) as u64;
        let rest: u32 = (nanos % 1_000_000_000) as u32;
        Some(uuid_v7_text(seconds, rest))
    }
}

/// The identifier of a session that carries `token`.
pub open spec fn session_name(token: Seq<char>) -> Seq<char> {
    "session_"@ + token
}

/// The identifier of a configuration that carries `token`.
pub open spec fn config_name(token: Seq<char>) -> Seq<char> {
    "config_"@ + token
}

/// The identifier of a session that carries `token`.
pub fn session_id_for(token: &str) -> (id: String)
    ensures
        id@ == session_name(token@),
{
    concat2("session_", token)
}

/// The identifier of a configuration that carries `token`.
pub fn config_id_for(token: &str) -> (id: String)
    ensures
        id@ == config_name(token@),
{
    concat2("config_", token)
}

} // verus!
