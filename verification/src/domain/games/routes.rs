//! The game requests: configurations, sessions behind the entry fee, and
//! scores. A handler that needs the provider returns the call to make and is
//! taken up again with the answer.

use vstd::prelude::*;
use vstd::string::*;
use crate::clock::{iso8601_text, representable, whole_minutes_between, Instant};
use crate::domain::games::store::{
    config_ids, difficulty_tenths, find_session_from, is_config_for, issued_config, is_leaderboard,
    is_personal_best, leaderboard_views, refreshed_sessions, score_ids,
    score_views, session_ids, session_not_found, session_start, started_session,
    submitted_score, GameConfigResponse, GameStore, GamesView, Score, ScoreView,
    ScoreWithUsername,
};
use crate::domain::payments::store::{
    has_paid_after, latest_pending_upto, opened_payment, payment_ids,
    payments_after_status, GamePayment, LedgerView,
};
use crate::domain::users::store::{find_pubkey_from, User};
use crate::domain::{
    clock_stopped, current_time, map_error, new_token, Error, ErrorReply, STATUS_FORBIDDEN,
    STATUS_INTERNAL_SERVER_ERROR, STATUS_NOT_FOUND, STATUS_UNAUTHORIZED,
};
use crate::ident::is_uuid_v7_text;
use crate::lightning::models::{LightningError, Payment};
use crate::startup::AppState;
use crate::table::next_id;
use crate::text::{concat2, opt_text};

verus! {

/// The entry fee, in sats.
pub const ENTRY_FEE_SATS: i64 = 500;

/// How often the service asks for an invoice before it gives up.
pub const INVOICE_ATTEMPTS: u32 = 10;

/// Milliseconds between two attempts to fetch an invoice.
pub const INVOICE_PAUSE_MILLIS: u64 = 5000;

/// The query of a request for a configuration.
#[derive(Debug)]
pub struct ConfigQuery {
    pub session_id: Option<String>,
}

/// The answer to a session that was opened.
#[derive(Debug)]
pub struct NewSessionResponse {
    pub config: GameConfigResponse,
}

/// The body of a score submission.
#[derive(Debug)]
pub struct ScoreSubmission {
    pub score: i64,
    pub level: i64,
    pub play_time: i64,
    pub session_id: String,
}

/// A score as it is sent back.
#[derive(Debug)]
pub struct ScoreResponse {
    pub id: i64,
    pub score: i64,
    pub level: i64,
    pub play_time: i64,
    pub created_at: String,
}

/// The answer that asks for the entry fee: the invoice to pay and what is
/// needed to ask about it again, with a note where there is one.
#[derive(Debug)]
pub struct PaymentRequired {
    pub invoice: String,
    pub payment_id: String,
    pub amount_sats: i64,
    pub created_at: String,
    pub message: Option<String>,
    pub error: Option<String>,
}

/// The answer to a request for a session: 201 with the configuration, 402
/// with the invoice to pay, or an error.
#[derive(Debug)]
pub enum SessionReply {
    Created(NewSessionResponse),
    PaymentRequired(PaymentRequired),
    Failed(ErrorReply),
}

/// What the session handler does next.
#[derive(Debug)]
pub enum SessionAction {
    /// Send the answer: the request is done.
    Respond(SessionReply),
    /// Ask the provider about the open entry fee, and come back with the
    /// answer.
    CheckStatus { user_id: i64, pending: GamePayment },
    /// Ask the provider for an invoice of the entry fee, and come back with
    /// the answer.
    RequestInvoice { user_id: i64, description: String },
    /// Ask the provider for the invoice of `payment_id`, for the `attempt`th
    /// time, and come back with the answer.
    FetchInvoice { user_id: i64, payment_id: String, attempt: u32 },
}

/// A step of the session handler: how long to pause first, then what to do.
#[derive(Debug)]
pub struct SessionStep {
    pub pause_millis: u64,
    pub action: SessionAction,
}

/// Whether `reply` is the error answer with this status and text.
pub open spec fn is_error(reply: ErrorReply, status: u16, text: Seq<char>) -> bool {
    reply.status == status && reply.message@ == text
}

/// Whether `reply` is the answer of a handler whose clock stands outside the
/// years that a timestamp can name.
pub open spec fn clock_reply(reply: ErrorReply) -> bool {
    is_error(reply, 400, "System clock is out of range"@)
}

/// The description under which an entry fee is requested for a player.
pub open spec fn fee_description(pubkey: Seq<char>) -> Seq<char> {
    "Asteroids Game Entry Fee - User:"@ + pubkey
}

/// Whether `notice` asks for `payment`, with this note and this error.
pub open spec fn asks_for(
    notice: PaymentRequired,
    payment: GamePayment,
    message: Option<Seq<char>>,
    error: Option<Seq<char>>,
) -> bool {
    &&& notice.invoice@ == payment.invoice@
    &&& notice.payment_id@ == payment.payment_id@
    &&& notice.amount_sats == payment.amount_sats
    &&& notice.created_at@ == payment.created_at@
    &&& opt_text(notice.message) == message
    &&& opt_text(notice.error) == error
}

/// The answer that asks for `payment`.
pub fn payment_notice(payment: &GamePayment, message: Option<&str>, error: Option<&str>) -> (notice:
    PaymentRequired)
    ensures
        asks_for(
            notice,
            *payment,
            match message {
                Some(m) => Some(m@),
                None => None,
            },
            match error {
                Some(e) => Some(e@),
                None => None,
            },
        ),
{
    PaymentRequired {
        invoice: payment.invoice.clone(),
        payment_id: payment.payment_id.clone(),
        amount_sats: payment.amount_sats,
        created_at: payment.created_at.clone(),
        message: match message {
            Some(m) => Some(String::from_str(m)),
            None => None,
        },
        error: match error {
            Some(e) => Some(String::from_str(e)),
            None => None,
        },
    }
}

/// The liveness probe.
pub fn health() -> (body: &'static str)
    ensures
        body@ == "OK"@,
{
    "OK"
}

/// Whether `reply` is what opening a session for `user_id` at `now` gives,
/// from the games `before` to the games `after`: a session named after
/// `session_token` and its configuration, named after `config_token`, or
/// the error that stopped it.
pub open spec fn opens_session(
    before: GamesView,
    after: GamesView,
    user_id: int,
    now: Instant,
    session_token: Seq<char>,
    config_token: Seq<char>,
    reply: SessionReply,
) -> bool {
    let session = started_session(before.sessions, user_id, session_token, now.text());
    &&& after.scores == before.scores
    &&& if next_id(session_ids(before.sessions)) > i64::MAX {
        &&& after == before
        &&& reply matches SessionReply::Failed(e) && is_error(
                e,
                STATUS_INTERNAL_SERVER_ERROR,
                "Internal server error"@,
            )
    } else {
        &&& after.sessions == before.sessions.push(session)
        &&& if !representable(now.nanos() + 300 * 1_000_000_000) {
            &&& after.configs == before.configs
            &&& reply matches SessionReply::Failed(e) && is_error(
                e,
                400,
                GameStore::expiry_out_of_range(),
            )
        } else if next_id(config_ids(before.configs)) > i64::MAX {
            &&& after.configs == before.configs
            &&& reply matches SessionReply::Failed(e) && is_error(
                e,
                STATUS_INTERNAL_SERVER_ERROR,
                "Internal server error"@,
            )
        } else {
            &&& after.configs == before.configs.push(
                issued_config(
                    before.configs,
                    user_id,
                    config_token,
                    now.text(),
                    iso8601_text(now.nanos() + 300 * 1_000_000_000),
                ),
            )
            &&& reply matches SessionReply::Created(created) && is_config_for(
                created.config,
                session.session_id,
                10,
                config_token,
                ((now.nanos() + 300 * 1_000_000_000) / 1_000_000_000) * 1000,
            )
        }
    }
}

/// Opens a session for `user_id` at `now` and hands out its configuration.
pub fn open_session_at(
    games: &mut GameStore,
    user_id: i64,
    now: &Instant,
    session_token: &str,
    config_token: &str,
) -> (reply: SessionReply)
    ensures
        opens_session(
            old(games)@,
            final(games)@,
            user_id as int,
            *now,
            session_token@,
            config_token@,
            reply,
        ),
{
    match games.create_session_at(user_id, session_token, now) {
        Ok(session) => match games.create_game_config_at(&session, config_token, now) {
            Ok(config) => SessionReply::Created(NewSessionResponse { config }),
            Err(e) => SessionReply::Failed(map_error(e)),
        },
        Err(e) => SessionReply::Failed(map_error(e)),
    }
}

/// Finds the player with the key `pubkey`, or answers that there is none,
/// with the status `missing`.
pub fn find_user(state: &AppState, pubkey: &str, missing: u16) -> (r: Result<User, ErrorReply>)
    ensures
        match find_pubkey_from(state.user_store@, pubkey@, 0) {
            Some(i) => r matches Ok(user) && 0 <= i < state.user_store@.len() && user@
                == state.user_store@[i],
            None => r matches Err(e) && is_error(e, missing, "User not found"@),
        },
{
    match state.user_store.find_by_pubkey(String::from_str(pubkey)) {
        Ok(Some(user)) => Ok(user),
        Ok(None) => Err(
            ErrorReply { status: missing, message: String::from_str("User not found") },
        ),
        Err(e) => Err(map_error(e)),
    }
}

/// What `get_game_config` answers at `now`. A request that names a session
/// refreshes it first, then checks that it is the player's own; one that
/// names none opens a session.
pub open spec fn config_outcome(
    before: GamesView,
    after: GamesView,
    user_id: int,
    session_id: Option<Seq<char>>,
    now: Instant,
    session_token: Seq<char>,
    config_token: Seq<char>,
    r: Result<GameConfigResponse, ErrorReply>,
) -> bool {
    match session_id {
        None => {
            &&& opens_session(
                before,
                after,
                user_id,
                now,
                session_token,
                config_token,
                match r {
                    Ok(config) => SessionReply::Created(NewSessionResponse { config }),
                    Err(e) => SessionReply::Failed(e),
                },
            )
        },
        Some(wanted) => match find_session_from(before.sessions, wanted, 0) {
            None => {
                &&& after == before
                &&& r matches Err(e) && is_error(e, STATUS_NOT_FOUND, session_not_found(wanted))
            },
            Some(i) => match session_start(before.sessions[i]) {
                None => {
                    &&& after == before
                    &&& r matches Err(e) && is_error(
                        e,
                        400,
                        "Invalid date format in session start time"@,
                    )
                },
                Some(start) => {
                    let tenths = difficulty_tenths(whole_minutes_between(start, now.nanos()));
                    &&& after.sessions == refreshed_sessions(
                        before.sessions,
                        wanted,
                        now.text(),
                        tenths,
                    )
                    &&& after.scores == before.scores
                    &&& if before.sessions[i].user_id != user_id {
                        &&& after.configs == before.configs
                        &&& r matches Err(e) && is_error(
                            e,
                            STATUS_FORBIDDEN,
                            "Session belongs to a different user"@,
                        )
                    } else if !representable(now.nanos() + 300 * 1_000_000_000) {
                        &&& after.configs == before.configs
                        &&& r matches Err(e) && is_error(e, 400, GameStore::expiry_out_of_range())
                    } else if next_id(config_ids(before.configs)) > i64::MAX {
                        &&& after.configs == before.configs
                        &&& r matches Err(e) && is_error(
                            e,
                            STATUS_INTERNAL_SERVER_ERROR,
                            "Internal server error"@,
                        )
                    } else {
                        &&& after.configs == before.configs.push(
                            issued_config(
                                before.configs,
                                user_id,
                                config_token,
                                now.text(),
                                iso8601_text(now.nanos() + 300 * 1_000_000_000),
                            ),
                        )
                        &&& r matches Ok(config) && is_config_for(
                            config,
                            wanted,
                            tenths,
                            config_token,
                            ((now.nanos() + 300 * 1_000_000_000) / 1_000_000_000) * 1000,
                        )
                    }
                },
            },
        },
    }
}

/// Answers a request for a configuration at `now`: 404 for a key that is
/// not a player's, else the outcome for the player.
pub fn get_game_config_at(
    state: &mut AppState,
    pubkey: &str,
    query: ConfigQuery,
    now: &Instant,
    session_token: &str,
    config_token: &str,
) -> (r: Result<GameConfigResponse, ErrorReply>)
    ensures
        final(state).user_store@ == old(state).user_store@,
        final(state).payment_store@ == old(state).payment_store@,
        match find_pubkey_from(old(state).user_store@, pubkey@, 0) {
            None => {
                &&& final(state).game_store@ == old(state).game_store@
                &&& r matches Err(e) && is_error(e, STATUS_NOT_FOUND, "User not found"@)
            },
            Some(u) => config_outcome(
                old(state).game_store@,
                final(state).game_store@,
                old(state).user_store@[u].id,
                opt_text(query.session_id),
                *now,
                session_token@,
                config_token@,
                r,
            ),
        },
{
    let user = match find_user(state, pubkey, STATUS_NOT_FOUND) {
        Ok(user) => user,
        Err(e) => {
            return Err(e);
        },
    };
    match query.session_id {
        Some(session_id) => {
            match state.game_store.update_session_activity_at(session_id.as_str(), now) {
                Ok(session) => {
                    if session.user_id != user.id {
                        return Err(
                            ErrorReply {
                                status: STATUS_FORBIDDEN,
                                message: String::from_str("Session belongs to a different user"),
                            },
                        );
                    }
                    match state.game_store.create_game_config_at(&session, config_token, now) {
                        Ok(config) => Ok(config),
                        Err(e) => Err(map_error(e)),
                    }
                },
                Err(e) => Err(map_error(e)),
            }
        },
        None => {
            match open_session_at(
                &mut state.game_store,
                user.id,
                now,
                session_token,
                config_token,
            ) {
                SessionReply::Created(created) => Ok(created.config),
                SessionReply::Failed(e) => Err(e),
                SessionReply::PaymentRequired(_) => Err(
                    ErrorReply {
                        status: STATUS_INTERNAL_SERVER_ERROR,
                        message: String::from_str("Internal server error"),
                    },
                ),
            }
        },
    }
}


/// The time of a request and two fresh identifiers for what it makes, or
/// the error of a clock that cannot be read as a time from 1970 on.
pub fn clock_and_tokens() -> (r: Result<(Instant, String, String), Error>)
    ensures
        match r {
            Ok((now, first, second)) => {
                &&& representable(now.nanos())
                &&& is_uuid_v7_text(first@)
                &&& is_uuid_v7_text(second@)
            },
            Err(e) => clock_stopped(e),
        },
{
    let now = match current_time() {
        Ok(now) => now,
        Err(e) => {
            return Err(e);
        },
    };
    let first = match new_token(&now) {
        Ok(token) => token,
        Err(e) => {
            return Err(e);
        },
    };
    let second = match new_token(&now) {
        Ok(token) => token,
        Err(e) => {
            return Err(e);
        },
    };
    Ok((now, first, second))
}

/// Answers a request for a configuration now, under fresh identifiers.
pub fn get_game_config(state: &mut AppState, pubkey: &str, query: ConfigQuery) -> (r: Result<
    GameConfigResponse,
    ErrorReply,
>)
    ensures
        find_pubkey_from(old(state).user_store@, pubkey@, 0) matches Some(u) ==> ({
            ||| {
                &&& r matches Err(e) && clock_reply(e)
                &&& final(state).game_store@ == old(state).game_store@
            }
            ||| exists|now: Instant, session_token: Seq<char>, config_token: Seq<char>|
                representable(now.nanos()) && is_uuid_v7_text(session_token) && is_uuid_v7_text(
                    config_token,
                ) && #[trigger] config_outcome(
                    old(state).game_store@,
                    final(state).game_store@,
                    old(state).user_store@[u].id,
                    opt_text(query.session_id),
                    now,
                    session_token,
                    config_token,
                    r,
                )
        }),
        final(state).user_store@ == old(state).user_store@,
        final(state).payment_store@ == old(state).payment_store@,
        final(state).game_store@.scores == old(state).game_store@.scores,
        find_pubkey_from(old(state).user_store@, pubkey@, 0) is None ==> {
            &&& final(state).game_store@ == old(state).game_store@
            &&& r matches Err(e) && is_error(e, STATUS_NOT_FOUND, "User not found"@)
        },
        r matches Ok(config) ==> {
            &&& config.version@ == "1.0.0"@
            &&& config.fps == 60
            &&& final(state).game_store@.configs.len() == old(state).game_store@.configs.len() + 1
            &&& final(state).game_store@.configs.drop_last() == old(state).game_store@.configs
        },
{
    let (now, session_token, config_token) = match clock_and_tokens() {
        Ok(read) => read,
        Err(e) => {
            match find_user(state, pubkey, STATUS_NOT_FOUND) {
                Ok(_) => {
                    return Err(map_error(e));
                },
                Err(missing) => {
                    return Err(missing);
                },
            }
        },
    };
    get_game_config_at(
        state,
        pubkey,
        query,
        &now,
        session_token.as_str(),
        config_token.as_str(),
    )
}

/// The step that answers at once.
pub fn respond(reply: SessionReply) -> (step: SessionStep)
    ensures
        step.pause_millis == 0,
        step.action == SessionAction::Respond(reply),
{
    SessionStep { pause_millis: 0, action: SessionAction::Respond(reply) }
}

/// The step that answers with an error at once.
pub fn refuse(status: u16, message: &str) -> (step: SessionStep)
    ensures
        step.pause_millis == 0,
        step.action matches SessionAction::Respond(SessionReply::Failed(e)) && is_error(
            e,
            status,
            message@,
        ),
{
    respond(SessionReply::Failed(ErrorReply { status, message: String::from_str(message) }))
}

/// Whether `step` asks the provider for an invoice for the player
/// `user_id` with the key `pubkey`.
pub open spec fn requests_invoice(step: SessionStep, user_id: int, pubkey: Seq<char>) -> bool {
    &&& step.pause_millis == 0
    &&& step.action matches SessionAction::RequestInvoice { user_id: u, description } && u
        == user_id && description@ == fee_description(pubkey)
}

/// The step that asks the provider for an invoice.
pub fn request_invoice(user_id: i64, pubkey: &str) -> (step: SessionStep)
    ensures
        requests_invoice(step, user_id as int, pubkey@),
{
    SessionStep {
        pause_millis: 0,
        action: SessionAction::RequestInvoice {
            user_id,
            description: concat2("Asteroids Game Entry Fee - User:", pubkey),
        },
    }
}

/// What the session handler does first for the player at position `u`, at `now`: a
/// player with an entry fee paid in the last hour gets a session; one with
/// an open entry fee has it checked with the provider; any other is asked
/// to pay, for which an invoice is requested.
pub open spec fn session_opening(
    before: GamesView,
    after: GamesView,
    ledger: LedgerView,
    user_id: int,
    pubkey: Seq<char>,
    now: Instant,
    session_token: Seq<char>,
    config_token: Seq<char>,
    step: SessionStep,
) -> bool {
    if !representable(now.nanos() - 3600 * 1_000_000_000) {
        &&& after == before
        &&& step.pause_millis == 0
        &&& step.action matches SessionAction::Respond(SessionReply::Failed(e)) && is_error(
            e,
            400,
            crate::domain::payments::store::cutoff_out_of_range(),
        )
    } else if has_paid_after(
        ledger.payments,
        user_id,
        iso8601_text(now.nanos() - 3600 * 1_000_000_000),
    ) {
        &&& step.pause_millis == 0
        &&& step.action matches SessionAction::Respond(reply) && opens_session(
            before,
            after,
            user_id,
            now,
            session_token,
            config_token,
            reply,
        )
    } else {
        &&& after == before
        &&& match latest_pending_upto(ledger.payments, user_id, ledger.payments.len() as int) {
            Some(k) => {
                &&& step.pause_millis == 0
                &&& step.action matches SessionAction::CheckStatus { user_id: u, pending } && u
                    == user_id && pending@ == ledger.payments[k]
            },
            None => requests_invoice(step, user_id, pubkey),
        }
    }
}

/// Takes up a request for a session at `now`: 401 for a key that is not a
/// player's, else the handler's first step.
pub fn start_new_session_at(
    state: &mut AppState,
    pubkey: &str,
    now: &Instant,
    session_token: &str,
    config_token: &str,
) -> (step: SessionStep)
    ensures
        final(state).user_store@ == old(state).user_store@,
        final(state).payment_store@ == old(state).payment_store@,
        match find_pubkey_from(old(state).user_store@, pubkey@, 0) {
            None => {
                &&& final(state).game_store@ == old(state).game_store@
                &&& step.pause_millis == 0
                &&& step.action matches SessionAction::Respond(SessionReply::Failed(e)) && is_error(
                    e,
                    STATUS_UNAUTHORIZED,
                    "User not found"@,
                )
            },
            Some(u) => session_opening(
                old(state).game_store@,
                final(state).game_store@,
                old(state).payment_store@,
                old(state).user_store@[u].id,
                pubkey@,
                *now,
                session_token@,
                config_token@,
                step,
            ),
        },
{
    let user = match find_user(state, pubkey, STATUS_UNAUTHORIZED) {
        Ok(user) => user,
        Err(e) => {
            return respond(SessionReply::Failed(e));
        },
    };
    let valid = match state.payment_store.has_valid_payment_at(user.id, now) {
        Ok(valid) => valid,
        Err(e) => {
            return respond(SessionReply::Failed(map_error(e)));
        },
    };
    if valid {
        return respond(
            open_session_at(&mut state.game_store, user.id, now, session_token, config_token),
        );
    }
    match state.payment_store.get_pending_payment_for_user(user.id) {
        Ok(Some(pending)) => SessionStep {
            pause_millis: 0,
            action: SessionAction::CheckStatus { user_id: user.id, pending },
        },
        Ok(None) => request_invoice(user.id, pubkey),
        Err(e) => respond(SessionReply::Failed(map_error(e))),
    }
}

/// Takes up a request for a session now.
pub fn start_new_session(state: &mut AppState, pubkey: &str) -> (step: SessionStep)
    ensures
        find_pubkey_from(old(state).user_store@, pubkey@, 0) matches Some(u) ==> ({
            ||| {
                &&& step.action matches SessionAction::Respond(SessionReply::Failed(e))
                    && clock_reply(e)
                &&& final(state).game_store@ == old(state).game_store@
            }
            ||| exists|now: Instant, session_token: Seq<char>, config_token: Seq<char>|
                representable(now.nanos()) && is_uuid_v7_text(session_token) && is_uuid_v7_text(
                    config_token,
                ) && #[trigger] session_opening(
                    old(state).game_store@,
                    final(state).game_store@,
                    old(state).payment_store@,
                    old(state).user_store@[u].id,
                    pubkey@,
                    now,
                    session_token,
                    config_token,
                    step,
                )
        }),
        final(state).user_store@ == old(state).user_store@,
        final(state).payment_store@ == old(state).payment_store@,
        final(state).game_store@.scores == old(state).game_store@.scores,
        find_pubkey_from(old(state).user_store@, pubkey@, 0) is None ==> {
            &&& final(state).game_store@ == old(state).game_store@
            &&& step.action matches SessionAction::Respond(SessionReply::Failed(e)) && is_error(
                e,
                STATUS_UNAUTHORIZED,
                "User not found"@,
            )
        },
        step.action matches SessionAction::RequestInvoice { user_id, description } ==> {
            &&& final(state).game_store@ == old(state).game_store@
            &&& description@ == fee_description(pubkey@)
            &&& latest_pending_upto(
                old(state).payment_store@.payments,
                user_id as int,
                old(state).payment_store@.payments.len() as int,
            ) is None
        },
        step.action matches SessionAction::CheckStatus { user_id, pending } ==> {
            &&& final(state).game_store@ == old(state).game_store@
            &&& latest_pending_upto(
                old(state).payment_store@.payments,
                user_id as int,
                old(state).payment_store@.payments.len() as int,
            ) matches Some(k) && pending@ == old(state).payment_store@.payments[k]
        },
{
    let (now, session_token, config_token) = match clock_and_tokens() {
        Ok(read) => read,
        Err(e) => {
            match find_user(state, pubkey, STATUS_UNAUTHORIZED) {
                Ok(_) => {
                    return respond(SessionReply::Failed(map_error(e)));
                },
                Err(missing) => {
                    return respond(SessionReply::Failed(missing));
                },
            }
        },
    };
    start_new_session_at(state, pubkey, &now, session_token.as_str(), config_token.as_str())
}

/// Whether the provider's answer says that the payment is completed.
pub open spec fn completes(answer: Result<Option<Payment>, LightningError>) -> bool {
    answer matches Ok(Some(payment)) && payment@.status == Some("completed"@)
}

/// What the session handler does with the provider's answer about the open entry fee
/// `pending`, at `now`. A completed payment is marked paid, where the ledger
/// still holds it as pending, and opens a session; a failed one is marked
/// failed and a new invoice is requested; in every other case the player is
/// shown the same invoice again.
pub open spec fn after_status_check(
    games_before: GamesView,
    games_after: GamesView,
    ledger_before: LedgerView,
    ledger_after: LedgerView,
    pubkey: Seq<char>,
    user_id: int,
    pending: GamePayment,
    answer: Result<Option<Payment>, LightningError>,
    now: Instant,
    session_token: Seq<char>,
    config_token: Seq<char>,
    step: SessionStep,
) -> bool {
    &&& ledger_after.payouts == ledger_before.payouts
    &&& match answer {
        Ok(Some(payment)) => if payment@.status == Some("completed"@) {
            &&& ledger_after.payments == payments_after_status(
                ledger_before.payments,
                pending.payment_id@,
                "paid"@,
                now.text(),
            )
            &&& step.pause_millis == 0
            &&& step.action matches SessionAction::Respond(reply) && opens_session(
                games_before,
                games_after,
                user_id,
                now,
                session_token,
                config_token,
                reply,
            )
        } else if payment@.status == Some("failed"@) {
            &&& ledger_after.payments == payments_after_status(
                ledger_before.payments,
                pending.payment_id@,
                "failed"@,
                now.text(),
            )
            &&& games_after == games_before
            &&& requests_invoice(step, user_id, pubkey)
        } else {
            &&& ledger_after == ledger_before
            &&& games_after == games_before
            &&& step.pause_millis == 0
            &&& step.action matches SessionAction::Respond(SessionReply::PaymentRequired(notice))
                && asks_for(notice, pending, None, None)
        },
        Ok(None) => {
            &&& ledger_after == ledger_before
            &&& games_after == games_before
            &&& step.pause_millis == 0
            &&& step.action matches SessionAction::Respond(SessionReply::PaymentRequired(notice))
                && asks_for(notice, pending, Some("Payment processing, please wait"@), None)
        },
        Err(_) => {
            &&& ledger_after == ledger_before
            &&& games_after == games_before
            &&& step.pause_millis == 0
            &&& step.action matches SessionAction::Respond(SessionReply::PaymentRequired(notice))
                && asks_for(
                notice,
                pending,
                None,
                Some("Could not verify payment status. Please try again."@),
            )
        },
    }
}

/// Takes the session handler up again at `now` with the provider's answer about the
/// open entry fee.
pub fn payment_status_checked_at(
    state: &mut AppState,
    pubkey: &str,
    user_id: i64,
    pending: GamePayment,
    answer: Result<Option<Payment>, LightningError>,
    now: &Instant,
    session_token: &str,
    config_token: &str,
) -> (step: SessionStep)
    ensures
        final(state).user_store@ == old(state).user_store@,
        after_status_check(
            old(state).game_store@,
            final(state).game_store@,
            old(state).payment_store@,
            final(state).payment_store@,
            pubkey@,
            user_id as int,
            pending,
            answer,
            *now,
            session_token@,
            config_token@,
            step,
        ),
{
    match &answer {
        Ok(Some(payment)) => {
            let completed = match &payment.status {
                Some(status) => crate::text::str_eq(status.as_str(), "completed"),
                None => false,
            };
            let failed = match &payment.status {
                Some(status) => crate::text::str_eq(status.as_str(), "failed"),
                None => false,
            };
            if completed {
                let _ = state.payment_store.update_payment_status_at(
                    pending.payment_id.as_str(),
                    "paid",
                    now,
                );
                respond(
                    open_session_at(
                        &mut state.game_store,
                        user_id,
                        now,
                        session_token,
                        config_token,
                    ),
                )
            } else if failed {
                let _ = state.payment_store.update_payment_status_at(
                    pending.payment_id.as_str(),
                    "failed",
                    now,
                );
                request_invoice(user_id, pubkey)
            } else {
                respond(SessionReply::PaymentRequired(payment_notice(&pending, None, None)))
            }
        },
        Ok(None) => respond(
            SessionReply::PaymentRequired(
                payment_notice(&pending, Some("Payment processing, please wait"), None),
            ),
        ),
        Err(_) => respond(
            SessionReply::PaymentRequired(
                payment_notice(
                    &pending,
                    None,
                    Some("Could not verify payment status. Please try again."),
                ),
            ),
        ),
    }
}

/// Takes the session handler up again now with the provider's answer about the open
/// entry fee.
pub fn payment_status_checked(
    state: &mut AppState,
    pubkey: &str,
    user_id: i64,
    pending: GamePayment,
    answer: Result<Option<Payment>, LightningError>,
) -> (step: SessionStep)
    ensures
        ({
            ||| {
                &&& step.action matches SessionAction::Respond(SessionReply::Failed(e))
                    && clock_reply(e)
                &&& final(state).game_store@ == old(state).game_store@
                &&& final(state).payment_store@ == old(state).payment_store@
            }
            ||| exists|now: Instant, session_token: Seq<char>, config_token: Seq<char>|
                representable(now.nanos()) && (completes(answer) ==> is_uuid_v7_text(
                    session_token,
                ) && is_uuid_v7_text(config_token)) && #[trigger] after_status_check(
                    old(state).game_store@,
                    final(state).game_store@,
                    old(state).payment_store@,
                    final(state).payment_store@,
                    pubkey@,
                    user_id as int,
                    pending,
                    answer,
                    now,
                    session_token,
                    config_token,
                    step,
                )
        }),
        final(state).user_store@ == old(state).user_store@,
        final(state).payment_store@.payouts == old(state).payment_store@.payouts,
        final(state).game_store@.scores == old(state).game_store@.scores,
        match answer {
            Ok(Some(payment)) => if payment@.status == Some("completed"@) {
                step.action is Respond
            } else if payment@.status == Some("failed"@) {
                &&& final(state).game_store@ == old(state).game_store@
                &&& step.action is Respond || requests_invoice(step, user_id as int, pubkey@)
            } else {
                &&& final(state).payment_store@ == old(state).payment_store@
                &&& final(state).game_store@ == old(state).game_store@
                &&& step.action matches SessionAction::Respond(
                    SessionReply::PaymentRequired(notice),
                )
                    && asks_for(notice, pending, None, None)
            },
            Ok(None) => {
                &&& final(state).payment_store@ == old(state).payment_store@
                &&& final(state).game_store@ == old(state).game_store@
                &&& step.action matches SessionAction::Respond(
                    SessionReply::PaymentRequired(notice),
                )
                    && asks_for(notice, pending, Some("Payment processing, please wait"@), None)
            },
            Err(_) => {
                &&& final(state).payment_store@ == old(state).payment_store@
                &&& final(state).game_store@ == old(state).game_store@
                &&& step.action matches SessionAction::Respond(
                    SessionReply::PaymentRequired(notice),
                )
                    && asks_for(
                    notice,
                    pending,
                    None,
                    Some("Could not verify payment status. Please try again."@),
                )
            },
        },
{
    let (now, session_token, config_token) = match clock_and_tokens() {
        Ok(read) => read,
        Err(e) => {
            let settled = match &answer {
                Ok(Some(payment)) => match &payment.status {
                    Some(status) => crate::text::str_eq(status.as_str(), "completed")
                        || crate::text::str_eq(status.as_str(), "failed"),
                    None => false,
                },
                _ => false,
            };
            if settled {
                return respond(SessionReply::Failed(map_error(e)));
            }
            // Neither a time nor a name is written for a payment that is
            // still open.
            (Instant::epoch(), String::new(), String::new())
        },
    };
    payment_status_checked_at(
        state,
        pubkey,
        user_id,
        pending,
        answer,
        &now,
        session_token.as_str(),
        config_token.as_str(),
    )
}

/// Takes the session handler up again with the provider's answer to the request for an
/// invoice: the invoice is fetched, or the request has failed.
pub fn invoice_requested(user_id: i64, answer: Result<String, LightningError>) -> (step:
    SessionStep)
    ensures
        step.pause_millis == 0,
        match answer {
            Ok(id) => step.action matches SessionAction::FetchInvoice {
                user_id: u,
                payment_id,
                attempt,
            } && u == user_id && payment_id@ == id@ && attempt == 1,
            Err(_) => step.action matches SessionAction::Respond(SessionReply::Failed(e))
                && is_error(e, STATUS_INTERNAL_SERVER_ERROR, "Failed to create payment invoice"@),
        },
{
    match answer {
        Ok(payment_id) => SessionStep {
            pause_millis: 0,
            action: SessionAction::FetchInvoice { user_id, payment_id, attempt: 1 },
        },
        Err(_) => refuse(STATUS_INTERNAL_SERVER_ERROR, "Failed to create payment invoice"),
    }
}

/// Whether `step` is what follows an `attempt`th question that found no
/// invoice yet: a pause, then the next question, or after the tenth the
/// answer that the handler gives up.
pub open spec fn asks_again(step: SessionStep, user_id: int, payment_id: Seq<char>, attempt: u32)
    -> bool {
    &&& step.pause_millis == INVOICE_PAUSE_MILLIS
    &&& if attempt < INVOICE_ATTEMPTS {
        step.action matches SessionAction::FetchInvoice { user_id: u, payment_id: p, attempt: a }
            && u == user_id && p@ == payment_id && a == attempt + 1
    } else {
        step.action matches SessionAction::Respond(SessionReply::Failed(e)) && is_error(
            e,
            STATUS_INTERNAL_SERVER_ERROR,
            "Failed to generate Lightning invoice. Please try again."@,
        )
    }
}

/// Whether `step` is the answer to a question about an invoice that ended
/// in an error of the call.
pub open spec fn fetch_failed(step: SessionStep) -> bool {
    &&& step.pause_millis == 0
    &&& step.action matches SessionAction::Respond(SessionReply::Failed(e)) && is_error(
        e,
        STATUS_INTERNAL_SERVER_ERROR,
        "Failed to retrieve payment invoice"@,
    )
}

/// What the session handler does with the provider's answer to the `attempt`th
/// question about an invoice, at `now`. An invoice opens an entry fee, and
/// the player is asked to pay it. While there is none the handler pauses and
/// asks again, ten times in all; then it gives up. An error of the call,
/// and an answer that describes no payment to the wallet, end the request
/// at once.
pub open spec fn after_invoice_fetch(
    before: LedgerView,
    after: LedgerView,
    user_id: int,
    payment_id: Seq<char>,
    attempt: u32,
    answer: Result<Option<String>, LightningError>,
    now: Instant,
    step: SessionStep,
) -> bool {
    match answer {
        Ok(Some(invoice)) => {
            let opened = opened_payment(
                before.payments,
                user_id,
                payment_id,
                invoice@,
                ENTRY_FEE_SATS as int,
                now.text(),
            );
            &&& step.pause_millis == 0
            &&& if next_id(payment_ids(before.payments)) <= i64::MAX {
                &&& after == (LedgerView { payments: before.payments.push(opened), ..before })
                &&& step.action matches SessionAction::Respond(
                    SessionReply::PaymentRequired(notice),
                )
                    && {
                    &&& notice.invoice@ == invoice@
                    &&& notice.payment_id@ == payment_id
                    &&& notice.amount_sats == ENTRY_FEE_SATS
                    &&& notice.created_at@ == now.text()
                    &&& notice.message is None
                    &&& notice.error is None
                }
            } else {
                &&& after == before
                &&& step.action matches SessionAction::Respond(SessionReply::Failed(e)) && is_error(
                    e,
                    STATUS_INTERNAL_SERVER_ERROR,
                    "Internal server error"@,
                )
            }
        },
        Ok(None) => after == before && asks_again(step, user_id, payment_id, attempt),
        Err(_) => after == before && fetch_failed(step),
    }
}

/// Takes the session handler up again at `now` with the provider's answer to a
/// question about an invoice.
pub fn invoice_fetched_at(
    state: &mut AppState,
    user_id: i64,
    payment_id: String,
    attempt: u32,
    answer: Result<Option<String>, LightningError>,
    now: &Instant,
) -> (step: SessionStep)
    ensures
        final(state).user_store@ == old(state).user_store@,
        final(state).game_store@ == old(state).game_store@,
        after_invoice_fetch(
            old(state).payment_store@,
            final(state).payment_store@,
            user_id as int,
            payment_id@,
            attempt,
            answer,
            *now,
            step,
        ),
{
    match &answer {
        Ok(Some(invoice)) => {
            match state.payment_store.create_game_payment_at(
                user_id,
                payment_id.as_str(),
                invoice.as_str(),
                ENTRY_FEE_SATS,
                now,
            ) {
                Ok(payment) => respond(
                    SessionReply::PaymentRequired(payment_notice(&payment, None, None)),
                ),
                Err(e) => respond(SessionReply::Failed(map_error(e))),
            }
        },
        Ok(None) => {
            if attempt < INVOICE_ATTEMPTS {
                SessionStep {
                    pause_millis: INVOICE_PAUSE_MILLIS,
                    action: SessionAction::FetchInvoice {
                        user_id,
                        payment_id,
                        attempt: attempt + 1,
                    },
                }
            } else {
                SessionStep {
                    pause_millis: INVOICE_PAUSE_MILLIS,
                    action: SessionAction::Respond(
                        SessionReply::Failed(
                            ErrorReply {
                                status: STATUS_INTERNAL_SERVER_ERROR,
                                message: String::from_str(
                                    "Failed to generate Lightning invoice. Please try again.",
                                ),
                            },
                        ),
                    ),
                }
            }
        },
        Err(_) => refuse(STATUS_INTERNAL_SERVER_ERROR, "Failed to retrieve payment invoice"),
    }
}

/// Takes the session handler up again now with the provider's answer to a question
/// about an invoice.
pub fn invoice_fetched(
    state: &mut AppState,
    user_id: i64,
    payment_id: String,
    attempt: u32,
    answer: Result<Option<String>, LightningError>,
) -> (step: SessionStep)
    ensures
        ({
            ||| {
                &&& step.action matches SessionAction::Respond(SessionReply::Failed(e))
                    && clock_reply(e)
                &&& final(state).payment_store@ == old(state).payment_store@
            }
            ||| exists|now: Instant|
                representable(now.nanos()) && #[trigger] after_invoice_fetch(
                    old(state).payment_store@,
                    final(state).payment_store@,
                    user_id as int,
                    payment_id@,
                    attempt,
                    answer,
                    now,
                    step,
                )
        }),
        final(state).user_store@ == old(state).user_store@,
        final(state).game_store@ == old(state).game_store@,
        final(state).payment_store@.payouts == old(state).payment_store@.payouts,
        match answer {
            Ok(Some(invoice)) => {
                &&& step.pause_millis == 0
                &&& match step.action {
                    SessionAction::Respond(SessionReply::PaymentRequired(notice)) => {
                        &&& notice.invoice@ == invoice@
                        &&& notice.payment_id@ == payment_id@
                        &&& notice.amount_sats == ENTRY_FEE_SATS
                        &&& final(state).payment_store@.payments == old(
                            state,
                        ).payment_store@.payments.push(
                            opened_payment(
                                old(state).payment_store@.payments,
                                user_id as int,
                                payment_id@,
                                invoice@,
                                ENTRY_FEE_SATS as int,
                                notice.created_at@,
                            ),
                        )
                    },
                    SessionAction::Respond(SessionReply::Failed(_)) => final(state).payment_store@
                        == old(state).payment_store@,
                    _ => false,
                }
            },
            Ok(None) => {
                &&& final(state).payment_store@ == old(state).payment_store@
                &&& asks_again(step, user_id as int, payment_id@, attempt)
            },
            Err(_) => {
                &&& final(state).payment_store@ == old(state).payment_store@
                &&& fetch_failed(step)
            },
        },
{
    let now = match current_time() {
        Ok(now) => now,
        Err(e) => match &answer {
            Ok(Some(_)) => {
                return respond(SessionReply::Failed(map_error(e)));
            },
            // No time is written while there is no invoice.
            _ => Instant::epoch(),
        },
    };
    invoice_fetched_at(state, user_id, payment_id, attempt, answer, &now)
}

/// A player who has neither a payment of the last hour nor an open entry
/// fee is asked to pay. The first step asks the provider for an invoice and
/// stores nothing; no session is made. The invoice, at whichever attempt it
/// comes, is stored as one pending entry fee of 500 sats, and the player is
/// answered with it.
pub proof fn lemma_unpaid_player_is_asked_to_pay(
    games: GamesView,
    games_after: GamesView,
    ledger: LedgerView,
    ledger_after: LedgerView,
    user_id: int,
    pubkey: Seq<char>,
    now: Instant,
    session_token: Seq<char>,
    config_token: Seq<char>,
    first: SessionStep,
    payment_id: Seq<char>,
    attempt: u32,
    invoice: String,
    fetched: Instant,
    last: SessionStep,
)
    requires
        session_opening(
            games,
            games_after,
            ledger,
            user_id,
            pubkey,
            now,
            session_token,
            config_token,
            first,
        ),
        representable(now.nanos() - 3600 * 1_000_000_000),
        !has_paid_after(
            ledger.payments,
            user_id,
            iso8601_text(now.nanos() - 3600 * 1_000_000_000),
        ),
        latest_pending_upto(ledger.payments, user_id, ledger.payments.len() as int) is None,
        after_invoice_fetch(
            ledger,
            ledger_after,
            user_id,
            payment_id,
            attempt,
            Ok::<Option<String>, LightningError>(Some(invoice)),
            fetched,
            last,
        ),
        next_id(payment_ids(ledger.payments)) <= i64::MAX,
    ensures
        games_after == games,
        requests_invoice(first, user_id, pubkey),
        ledger_after.payouts == ledger.payouts,
        ledger_after.payments == ledger.payments.push(
            opened_payment(
                ledger.payments,
                user_id,
                payment_id,
                invoice@,
                500,
                fetched.text(),
            ),
        ),
        last.action matches SessionAction::Respond(SessionReply::PaymentRequired(notice)) && {
            &&& notice.invoice@ == invoice@
            &&& notice.payment_id@ == payment_id
            &&& notice.amount_sats == 500
            &&& notice.created_at@ == fetched.text()
        },
{
}

/// A player whose open entry fee the provider reports as completed is let
/// in. The entry fee is marked paid at `now`; a session is opened for the
/// player, and its configuration expires after `now`. No invoice is asked
/// for.
pub proof fn lemma_paid_player_is_let_in(
    games: GamesView,
    games_after: GamesView,
    ledger: LedgerView,
    ledger_after: LedgerView,
    pubkey: Seq<char>,
    user_id: int,
    pending: GamePayment,
    k: int,
    answer: Result<Option<Payment>, LightningError>,
    now: Instant,
    session_token: Seq<char>,
    config_token: Seq<char>,
    step: SessionStep,
)
    requires
        after_status_check(
            games,
            games_after,
            ledger,
            ledger_after,
            pubkey,
            user_id,
            pending,
            answer,
            now,
            session_token,
            config_token,
            step,
        ),
        completes(answer),
        0 <= k < ledger.payments.len(),
        ledger.payments[k] == pending@,
        pending.status@ == "pending"@,
        now.nanos() >= 0,
        representable(now.nanos() + 300 * 1_000_000_000),
        next_id(session_ids(games.sessions)) <= i64::MAX,
        next_id(config_ids(games.configs)) <= i64::MAX,
    ensures
        ledger_after.payments[k].status == "paid"@,
        ledger_after.payments[k].paid_at == Some(now.text()),
        games_after.sessions == games.sessions.push(
            started_session(games.sessions, user_id, session_token, now.text()),
        ),
        step.action matches SessionAction::Respond(SessionReply::Created(created)) && {
            &&& created.config.session_id@ == crate::ident::session_name(session_token)
            &&& created.config.expiration_time * 1_000_000 > now.nanos()
        },
{
    crate::domain::payments::store::lemma_paid_is_not_pending();
    let n = now.nanos();
    let expiry = ((n + 300 * 1_000_000_000) / 1_000_000_000) * 1000;
    assert(expiry >= 0 && expiry * 1_000_000 > n) by (nonlinear_arith)
        requires
            n >= 0,
            expiry == ((n + 300 * 1_000_000_000) / 1_000_000_000) * 1000,
    ;
}

/// Whether `response` sends `score` back.
pub open spec fn sends_back(response: ScoreResponse, score: ScoreView) -> bool {
    &&& response.id == score.id
    &&& response.score == score.score
    &&& response.level == score.level
    &&& response.play_time == score.play_time
    &&& response.created_at@ == score.created_at
}

/// A score as it is sent back.
pub fn score_response(score: Score) -> (response: ScoreResponse)
    ensures
        sends_back(response, score@),
{
    ScoreResponse {
        id: score.id,
        score: score.score,
        level: score.level,
        play_time: score.play_time,
        created_at: score.created_at,
    }
}

/// Records a score at `now` for the player with the key `pubkey`, who must
/// own the session that the submission names: 401 for a key that is not a
/// player's, 404 for a session that is not there, 403 for one of another
/// player.
pub fn submit_score_at(
    state: &mut AppState,
    pubkey: &str,
    submission: ScoreSubmission,
    now: &Instant,
) -> (r: Result<ScoreResponse, ErrorReply>)
    ensures
        final(state).user_store@ == old(state).user_store@,
        final(state).payment_store@ == old(state).payment_store@,
        match find_pubkey_from(old(state).user_store@, pubkey@, 0) {
            None => {
                &&& final(state).game_store@ == old(state).game_store@
                &&& r matches Err(e) && is_error(e, STATUS_UNAUTHORIZED, "User not found"@)
            },
            Some(u) => match find_session_from(
                old(state).game_store@.sessions,
                submission.session_id@,
                0,
            ) {
                None => {
                    &&& final(state).game_store@ == old(state).game_store@
                    &&& r matches Err(e) && is_error(e, STATUS_NOT_FOUND, "Session not found"@)
                },
                Some(i) => if old(state).game_store@.sessions[i].user_id != old(
                    state,
                ).user_store@[u].id {
                    &&& final(state).game_store@ == old(state).game_store@
                    &&& r matches Err(e) && is_error(
                        e,
                        STATUS_FORBIDDEN,
                        "Session belongs to a different user"@,
                    )
                } else if next_id(score_ids(old(state).game_store@.scores)) > i64::MAX {
                    &&& final(state).game_store@ == old(state).game_store@
                    &&& r matches Err(e) && is_error(
                            e,
                            STATUS_INTERNAL_SERVER_ERROR,
                            "Internal server error"@,
                        )
                } else {
                    let row = submitted_score(
                        old(state).game_store@.scores,
                        old(state).user_store@[u].id,
                        submission.score as int,
                        submission.level as int,
                        submission.play_time as int,
                        now.text(),
                    );
                    &&& final(state).game_store@ == (GamesView {
                        scores: old(state).game_store@.scores.push(row),
                        ..old(state).game_store@
                    })
                    &&& r matches Ok(response) && sends_back(response, row)
                },
            },
        },
{
    let user = match find_user(state, pubkey, STATUS_UNAUTHORIZED) {
        Ok(user) => user,
        Err(e) => {
            return Err(e);
        },
    };
    match state.game_store.find_session(submission.session_id.as_str()) {
        Ok(Some(session)) => {
            if session.user_id != user.id {
                return Err(
                    ErrorReply {
                        status: STATUS_FORBIDDEN,
                        message: String::from_str("Session belongs to a different user"),
                    },
                );
            }
            match state.game_store.submit_score_at(
                user.id,
                submission.score,
                submission.level,
                submission.play_time,
                now,
            ) {
                Ok(score) => Ok(score_response(score)),
                Err(e) => Err(map_error(e)),
            }
        },
        Ok(None) => Err(
            ErrorReply { status: STATUS_NOT_FOUND, message: String::from_str("Session not found") },
        ),
        Err(e) => Err(map_error(e)),
    }
}

/// Records a score now.
pub fn submit_score(state: &mut AppState, pubkey: &str, submission: ScoreSubmission) -> (r: Result<
    ScoreResponse,
    ErrorReply,
>)
    ensures
        r matches Ok(response) ==> exists|at: int|
            #![trigger iso8601_text(at)]
            {
                let row = submitted_score(
                    old(state).game_store@.scores,
                    final(state).game_store@.scores.last().user_id,
                    submission.score as int,
                    submission.level as int,
                    submission.play_time as int,
                    iso8601_text(at),
                );
                &&& representable(at)
                &&& final(state).game_store@.scores == old(state).game_store@.scores.push(row)
                &&& sends_back(response, row)
            },
        r matches Err(e) ==> clock_reply(e) || e.status == STATUS_UNAUTHORIZED || e.status
            == STATUS_NOT_FOUND || e.status == STATUS_FORBIDDEN || e.status
            == STATUS_INTERNAL_SERVER_ERROR,
        final(state).user_store@ == old(state).user_store@,
        final(state).payment_store@ == old(state).payment_store@,
        match r {
            Ok(response) => {
                &&& response.score == submission.score
                &&& response.level == submission.level
                &&& response.play_time == submission.play_time
                &&& response.id == next_id(score_ids(old(state).game_store@.scores))
                &&& final(state).game_store@.sessions == old(state).game_store@.sessions
                &&& final(state).game_store@.configs == old(state).game_store@.configs
                &&& final(state).game_store@.scores.len() == old(state).game_store@.scores.len()
                    + 1
                &&& final(state).game_store@.scores.drop_last() == old(state).game_store@.scores
                &&& sends_back(response, final(state).game_store@.scores.last())
                &&& find_pubkey_from(old(state).user_store@, pubkey@, 0) matches Some(u)
                    && final(state).game_store@.scores.last().user_id == old(
                    state,
                ).user_store@[u].id
            },
            Err(_) => final(state).game_store@ == old(state).game_store@,
        },
        find_pubkey_from(old(state).user_store@, pubkey@, 0) is None ==> (r matches Err(e)
            && is_error(e, STATUS_UNAUTHORIZED, "User not found"@)),
{
    let now = match current_time() {
        Ok(now) => now,
        Err(e) => {
            match find_user(state, pubkey, STATUS_UNAUTHORIZED) {
                Ok(_) => {
                    return Err(map_error(e));
                },
                Err(missing) => {
                    return Err(missing);
                },
            }
        },
    };
    let ghost before = state.game_store@.scores;
    let r = submit_score_at(state, pubkey, submission, &now);
    proof {
        if r is Ok {
            assert(state.game_store@.scores.drop_last() =~= before);
            assert(now.text() == iso8601_text(now.nanos()));
        }
    }
    r
}

/// The leaderboard: the ten best scores of known players.
pub fn get_top_scores(state: &AppState) -> (r: Result<Vec<ScoreWithUsername>, ErrorReply>)
    ensures
        r matches Ok(board) && is_leaderboard(
            state.game_store@.scores,
            state.user_store@,
            10,
            leaderboard_views(board@),
        ),
{
    match state.game_store.get_top_scores(&state.user_store, 10) {
        Ok(board) => Ok(board),
        Err(e) => Err(map_error(e)),
    }
}

/// Whether `out` sends back the ten best scores of `user_id`.
pub open spec fn is_score_list(scores: Seq<ScoreView>, user_id: int, out: Seq<ScoreResponse>)
    -> bool {
    exists|list: Seq<ScoreView>|
        {
            &&& is_personal_best(scores, user_id, 10, list)
            &&& out.len() == list.len()
            &&& forall|k: int| 0 <= k < list.len() ==> sends_back(#[trigger] out[k], list[k])
        }
}

/// The ten best scores of the player with the key `pubkey`: 401 for a key
/// that is not a player's.
pub fn get_user_scores(state: &AppState, pubkey: &str) -> (r: Result<
    Vec<ScoreResponse>,
    ErrorReply,
>)
    ensures
        match find_pubkey_from(state.user_store@, pubkey@, 0) {
            None => r matches Err(e) && is_error(e, STATUS_UNAUTHORIZED, "User not found"@),
            Some(u) => r matches Ok(list) && is_score_list(
                state.game_store@.scores,
                state.user_store@[u].id,
                list@,
            ),
        },
{
    let user = match find_user(state, pubkey, STATUS_UNAUTHORIZED) {
        Ok(user) => user,
        Err(e) => {
            return Err(e);
        },
    };
    let scores = match state.game_store.get_user_scores(user.id, 10) {
        Ok(scores) => scores,
        Err(e) => {
            return Err(map_error(e));
        },
    };
    let ghost list = score_views(scores@);
    let mut out: Vec<ScoreResponse> = Vec::new();
    let mut k: usize = 0;
    while k < scores.len()
        invariant
            k <= scores.len(),
            out.len() == k,
            list == score_views(scores@),
            forall|j: int| 0 <= j < k ==> sends_back(#[trigger] out@[j], list[j]),
        decreases scores.len() - k,
    {
        out.push(score_response(scores[k].clone()));
        k += 1;
    }
    Ok(out)
}

} // verus!
