//! The login and registration requests.

use vstd::prelude::*;
use vstd::string::*;
use crate::clock::{iso8601_text, representable, Instant};
use crate::domain::users::store::{
    default_username, find_pubkey_from, new_user, next_user_id, UserInfo, UserStore,
};
use crate::domain::{map_error, ErrorReply};
use crate::ident::session_name;
use crate::startup::AppState;
use crate::text::opt_text;

verus! {

/// The body of a registration request.
#[derive(Debug)]
pub struct RegisterPayload {
    pub username: Option<String>,
}

/// The answer to a login or a registration.
#[derive(Debug)]
pub struct LoginResponse {
    pub session_id: String,
    pub username: String,
    pub pubkey: String,
}

/// The answer that tells a player what the store has found.
pub fn login_response(info: UserInfo) -> (response: LoginResponse)
    ensures
        response.session_id@ == info.session_id@,
        response.username@ == info.username@,
        response.pubkey@ == info.pubkey@,
{
    LoginResponse { session_id: info.session_id, username: info.username, pubkey: info.pubkey }
}

/// Logs in the player with the key `pubkey` at `now`: 200 with the player's
/// name and a session named after `token`. A key that is new becomes a
/// player under the default name.
pub fn login_at(state: &mut AppState, pubkey: &str, now: &Instant, token: &str) -> (r: Result<
    LoginResponse,
    ErrorReply,
>)
    ensures
        final(state).game_store@ == old(state).game_store@,
        final(state).payment_store@ == old(state).payment_store@,
        match find_pubkey_from(old(state).user_store@, pubkey@, 0) {
            Some(i) => {
                &&& final(state).user_store@ == old(state).user_store@
                &&& r matches Ok(response) && response.username@ == old(
                    state,
                ).user_store@[i].username && response.pubkey@ == pubkey@ && response.session_id@
                    == session_name(token@)
            },
            None => if next_user_id(old(state).user_store@) <= i64::MAX {
                &&& final(state).user_store@ == old(state).user_store@.push(
                    new_user(
                        old(state).user_store@,
                        pubkey@,
                        default_username(pubkey@),
                        now.text(),
                    ),
                )
                &&& r matches Ok(response) && response.username@ == default_username(pubkey@)
                    && response.pubkey@ == pubkey@ && response.session_id@ == session_name(token@)
            } else {
                &&& final(state).user_store@ == old(state).user_store@
                &&& r matches Err(e) && e.status == 500 && e.message@ == "Internal server error"@
            },
        },
{
    match state.user_store.login_at(String::from_str(pubkey), now, token) {
        Ok(info) => Ok(login_response(info)),
        Err(e) => Err(map_error(e)),
    }
}

/// Logs in the player with the key `pubkey` now.
pub fn login(state: &mut AppState, pubkey: &str) -> (r: Result<LoginResponse, ErrorReply>)
    ensures
        r matches Ok(response) ==> exists|token: Seq<char>|
            response.session_id@ == #[trigger] session_name(token),
        r is Ok && find_pubkey_from(old(state).user_store@, pubkey@, 0) is None ==> exists|at: int|
            representable(at) && final(state).user_store@ == old(state).user_store@.push(
                new_user(
                    old(state).user_store@,
                    pubkey@,
                    default_username(pubkey@),
                    #[trigger] iso8601_text(at),
                ),
            ),
        r matches Err(e) ==> (e.status == 400 && e.message@ == "System clock is out of range"@) || (
        e.status == 500 && e.message@ == "Internal server error"@),
        final(state).game_store@ == old(state).game_store@,
        final(state).payment_store@ == old(state).payment_store@,
        match r {
            Ok(response) => {
                &&& response.pubkey@ == pubkey@
                &&& match find_pubkey_from(old(state).user_store@, pubkey@, 0) {
                    Some(i) => final(state).user_store@ == old(state).user_store@
                        && response.username@ == old(state).user_store@[i].username,
                    None => {
                        &&& response.username@ == default_username(pubkey@)
                        &&& final(state).user_store@.len() == old(state).user_store@.len() + 1
                    },
                }
            },
            Err(_) => final(state).user_store@ == old(state).user_store@,
        },
{
    match state.user_store.login(String::from_str(pubkey)) {
        Ok(info) => Ok(login_response(info)),
        Err(e) => Err(map_error(e)),
    }
}

/// Registers the key `pubkey` as a new player at `now`: 201 with the
/// player's name, the one asked for or the default, and a session named
/// after `token`; 400 for a key that is already a player's.
pub fn register_at(
    state: &mut AppState,
    pubkey: &str,
    payload: RegisterPayload,
    now: &Instant,
    token: &str,
) -> (r: Result<LoginResponse, ErrorReply>)
    ensures
        final(state).game_store@ == old(state).game_store@,
        final(state).payment_store@ == old(state).payment_store@,
        match find_pubkey_from(old(state).user_store@, pubkey@, 0) {
            Some(_) => {
                &&& final(state).user_store@ == old(state).user_store@
                &&& r matches Err(e) && e.status == 400 && e.message@
                    == UserStore::already_registered(pubkey@)
            },
            None => if next_user_id(old(state).user_store@) <= i64::MAX {
                let name = UserStore::chosen_username(pubkey@, opt_text(payload.username));
                &&& final(state).user_store@ == old(state).user_store@.push(
                    new_user(old(state).user_store@, pubkey@, name, now.text()),
                )
                &&& r matches Ok(response) && response.username@ == name && response.pubkey@
                    == pubkey@ && response.session_id@ == session_name(token@)
            } else {
                &&& final(state).user_store@ == old(state).user_store@
                &&& r matches Err(e) && e.status == 500 && e.message@ == "Internal server error"@
            },
        },
{
    match state.user_store.register_at(String::from_str(pubkey), payload, now, token) {
        Ok(info) => Ok(login_response(info)),
        Err(e) => Err(map_error(e)),
    }
}

/// Registers the key `pubkey` as a new player now.
pub fn register(state: &mut AppState, pubkey: &str, payload: RegisterPayload) -> (r: Result<
    LoginResponse,
    ErrorReply,
>)
    ensures
        r matches Ok(response) ==> exists|token: Seq<char>|
            response.session_id@ == #[trigger] session_name(token),
        r matches Ok(response) ==> exists|at: int|
            representable(at) && final(state).user_store@ == old(state).user_store@.push(
                new_user(
                    old(state).user_store@,
                    pubkey@,
                    response.username@,
                    #[trigger] iso8601_text(at),
                ),
            ),
        r matches Err(e) ==> (e.status == 400 && (e.message@ == "System clock is out of range"@
            || e.message@ == UserStore::already_registered(pubkey@))) || (e.status == 500
            && e.message@ == "Internal server error"@),
        final(state).game_store@ == old(state).game_store@,
        final(state).payment_store@ == old(state).payment_store@,
        find_pubkey_from(old(state).user_store@, pubkey@, 0) is Some ==> r is Err,
        match r {
            Ok(response) => {
                &&& response.pubkey@ == pubkey@
                &&& response.username@ == UserStore::chosen_username(
                    pubkey@,
                    opt_text(payload.username),
                )
                &&& final(state).user_store@.len() == old(state).user_store@.len() + 1
                &&& final(state).user_store@.drop_last() == old(state).user_store@
                &&& final(state).user_store@.last().nostr_pubkey == pubkey@
            },
            Err(_) => final(state).user_store@ == old(state).user_store@,
        },
{
    match state.user_store.register(String::from_str(pubkey), payload) {
        Ok(info) => Ok(login_response(info)),
        Err(e) => Err(map_error(e)),
    }
}

} // verus!
