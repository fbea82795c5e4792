//! The health check.

use vstd::prelude::*;
use crate::domain::{map_error, ErrorReply, STATUS_OK};
use crate::startup::AppState;

verus! {

/// Whether the service and its stores are up: 200 where they answer.
pub fn health_check(state: &AppState) -> (r: Result<u16, ErrorReply>)
    ensures
        r == Ok::<u16, ErrorReply>(STATUS_OK),
{
    match state.user_store.ping() {
        Ok(_) => {},
        Err(e) => {
            return Err(map_error(e));
        },
    }
    match state.game_store.ping() {
        Ok(_) => {},
        Err(e) => {
            return Err(map_error(e));
        },
    }
    Ok(STATUS_OK)
}

} // verus!
