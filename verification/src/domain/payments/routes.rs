//! The payment requests: the state of an entry fee, and the daily prize.
//! A handler that needs the provider returns what to ask and is taken up
//! again with the answer.

use vstd::prelude::*;
use vstd::string::*;
use crate::clock::{day_before, Instant};
use crate::clock::representable;
use crate::domain::games::routes::{clock_reply, find_user, is_error};
use crate::domain::games::store::ScoreView;
use crate::domain::users::store::UserView;
use crate::domain::payments::store::{
    count_paid_on_from, count_prizes_from, day_winner, find_open_prize_from, find_payment_from,
    find_prize_from, lemma_one_prize_after_record, lemma_recorded_is_last, payments_after_status,
    payout_ids, prizes_after_invoice, prizes_after_record, prizes_after_status, prizes_settled,
    recorded_prize, reported, GamePayment, LedgerView,
};
use crate::domain::users::store::find_pubkey_from;
use crate::domain::{
    current_time, map_error, ErrorReply, STATUS_BAD_REQUEST, STATUS_FORBIDDEN,
    STATUS_INTERNAL_SERVER_ERROR, STATUS_NOT_FOUND, STATUS_UNAUTHORIZED,
};
use crate::lightning::models::{ledger_status, ledger_status_for, LightningError, Payment};
use crate::settlement::{prize_amount, prize_pool, to_msats};
use crate::startup::AppState;
use crate::table::next_id;
use crate::text::{concat2, opt_text, starts_with, str_eq};

verus! {

/// What a player is told about the prize of a day.
#[derive(Debug)]
pub struct DailyWinnerInfo {
    pub eligible: bool,
    pub date: String,
    pub amount: i64,
    pub message: String,
}

/// The body of a prize claim.
#[derive(Debug)]
pub struct ClaimPrizeRequest {
    pub invoice: String,
    pub date: String,
}

/// The state of an entry fee as it is sent back, with a note or an error
/// where there is one.
#[derive(Debug)]
pub struct PaymentStatusBody {
    pub status: String,
    pub payment_id: String,
    pub message: Option<String>,
    pub error: Option<String>,
}

/// What the status handler does next.
#[derive(Debug)]
pub enum StatusStep {
    /// Send the answer: 200 with the body, or an error.
    Respond(Result<PaymentStatusBody, ErrorReply>),
    /// Ask the provider about `payment`, and come back with the answer.
    AskProvider { payment: GamePayment },
}

/// What a player is told about yesterday's prize. Where the player has an
/// open prize on record, the answer also says that it is pending and
/// whether an invoice is attached to it.
#[derive(Debug)]
pub struct PrizeEligibility {
    pub info: DailyWinnerInfo,
    pub status: Option<String>,
    pub has_payment_request: Option<bool>,
}

/// The answer to a prize that was paid out.
#[derive(Debug)]
pub struct ClaimBody {
    pub success: bool,
    pub message: String,
    pub payment_id: String,
    pub amount: i64,
}

/// What the claim handler does next.
#[derive(Debug)]
pub enum ClaimStep {
    /// Send the answer: 200 with the body, or an error.
    Respond(Result<ClaimBody, ErrorReply>),
    /// Pay `invoice` through the provider, with `amount_msats` as the
    /// amount that bounds the fee, and come back with the outcome.
    Pay { prize_id: i64, invoice: String, amount_msats: i64, amount_sats: i64 },
}

/// Whether `body` reports `status` for `payment_id`, with this note and
/// this error.
pub open spec fn reports(
    body: PaymentStatusBody,
    status: Seq<char>,
    payment_id: Seq<char>,
    message: Option<Seq<char>>,
    error: Option<Seq<char>>,
) -> bool {
    &&& body.status@ == status
    &&& body.payment_id@ == payment_id
    &&& opt_text(body.message) == message
    &&& opt_text(body.error) == error
}

fn status_body(status: &str, payment_id: &str, message: Option<&str>, error: Option<&str>) -> (body:
    PaymentStatusBody)
    ensures
        reports(
            body,
            status@,
            payment_id@,
            match message {
                Some(m) => Some(m@),
                None => None,
            },
            match error {
                Some(e) => Some(e@),
                None => None,
            },
        ),
{
    PaymentStatusBody {
        status: String::from_str(status),
        payment_id: String::from_str(payment_id),
        message: match message {
            Some(m) => Some(String::from_str(m)),
            None => None,
        },
        error: match error {
            Some(e) => Some(String::from_str(e)),
            None => None,
        },
    }
}

fn refuse<T>(status: u16, message: &str) -> (r: Result<T, ErrorReply>)
    ensures
        r matches Err(e) && is_error(e, status, message@),
{
    Err(ErrorReply { status, message: String::from_str(message) })
}

/// Takes up a question about the entry fee `payment_id`: 401 for a key that
/// is not a player's, 404 for a payment that the ledger does not know, 403
/// for one of another player. A payment that the ledger holds as paid is
/// reported so at once; for any other the provider is asked.
pub fn check_payment_status(state: &AppState, pubkey: &str, payment_id: &str) -> (step: StatusStep)
    ensures
        match find_pubkey_from(state.user_store@, pubkey@, 0) {
            None => step matches StatusStep::Respond(Err(e)) && is_error(
                e,
                STATUS_UNAUTHORIZED,
                "User not found"@,
            ),
            Some(u) => match find_payment_from(state.payment_store@.payments, payment_id@, 0) {
                None => step matches StatusStep::Respond(Err(e)) && is_error(
                    e,
                    STATUS_NOT_FOUND,
                    "Payment not found"@,
                ),
                Some(k) => {
                    let row = state.payment_store@.payments[k];
                    if row.user_id != state.user_store@[u].id {
                        step matches StatusStep::Respond(Err(e)) && is_error(
                            e,
                            STATUS_FORBIDDEN,
                            "Payment belongs to another user"@,
                        )
                    } else if row.status == "paid"@ {
                        step matches StatusStep::Respond(Ok(body)) && reports(
                            body,
                            "paid"@,
                            payment_id@,
                            None,
                            None,
                        )
                    } else {
                        step matches StatusStep::AskProvider { payment } && payment@ == row
                    }
                },
            },
        },
{
    let user = match find_user(state, pubkey, STATUS_UNAUTHORIZED) {
        Ok(user) => user,
        Err(e) => {
            return StatusStep::Respond(Err(e));
        },
    };
    let payment = match state.payment_store.get_payment_by_id(payment_id) {
        Ok(Some(payment)) => payment,
        Ok(None) => {
            return StatusStep::Respond(refuse(STATUS_NOT_FOUND, "Payment not found"));
        },
        Err(e) => {
            return StatusStep::Respond(Err(map_error(e)));
        },
    };
    if payment.user_id != user.id {
        return StatusStep::Respond(refuse(STATUS_FORBIDDEN, "Payment belongs to another user"));
    }
    if str_eq(payment.status.as_str(), "paid") {
        return StatusStep::Respond(
            Ok(status_body("paid", payment.payment_id.as_str(), None, None)),
        );
    }
    StatusStep::AskProvider { payment }
}

/// What the status handler answers to the provider's word on `payment`,
/// and what that does to the ledger: a payment that is still pending
/// becomes paid once the provider reports it completed, and failed once it
/// reports it failed; what the ledger holds as settled stays. One that the
/// provider does not know yet is pending; where the provider could not be
/// asked, the ledger's own word stands.
pub open spec fn status_answer(
    before: LedgerView,
    after: LedgerView,
    payment: GamePayment,
    answer: Result<Option<Payment>, LightningError>,
    now: Instant,
    body: PaymentStatusBody,
) -> bool {
    match answer {
        Ok(Some(reply)) => {
            let status = ledger_status(reply@.status);
            &&& reports(body, status, payment.payment_id@, None, None)
            &&& if status == "pending"@ {
                after == before
            } else {
                after == (LedgerView {
                    payments: payments_after_status(
                        before.payments,
                        payment.payment_id@,
                        status,
                        now.text(),
                    ),
                    ..before
                })
            }
        },
        Ok(None) => {
            &&& after == before
            &&& reports(
                body,
                "pending"@,
                payment.payment_id@,
                Some("Payment not found in Lightning API yet"@),
                None,
            )
        },
        Err(_) => {
            &&& after == before
            &&& reports(
                body,
                payment.status@,
                payment.payment_id@,
                None,
                Some("Could not verify payment status with payment provider."@),
            )
        },
    }
}

/// Takes the status handler up again at `now` with the provider's answer.
pub fn payment_status_answered_at(
    state: &mut AppState,
    payment: GamePayment,
    answer: Result<Option<Payment>, LightningError>,
    now: &Instant,
) -> (body: PaymentStatusBody)
    ensures
        final(state).user_store@ == old(state).user_store@,
        final(state).game_store@ == old(state).game_store@,
        status_answer(
            old(state).payment_store@,
            final(state).payment_store@,
            payment,
            answer,
            *now,
            body,
        ),
{
    let payment_id = payment.payment_id.as_str();
    match &answer {
        Ok(Some(reply)) => {
            let status = ledger_status_for(&reply.status);
            if !str_eq(status, "pending") {
                let _ = state.payment_store.update_payment_status_at(payment_id, status, now);
            }
            status_body(status, payment_id, None, None)
        },
        Ok(None) => status_body(
            "pending",
            payment_id,
            Some("Payment not found in Lightning API yet"),
            None,
        ),
        Err(_) => status_body(
            payment.status.as_str(),
            payment_id,
            None,
            Some("Could not verify payment status with payment provider."),
        ),
    }
}

/// Takes the status handler up again now with the provider's answer. Where
/// the clock cannot be read nothing is written, and the answer is the same.
pub fn payment_status_answered(
    state: &mut AppState,
    payment: GamePayment,
    answer: Result<Option<Payment>, LightningError>,
) -> (body: PaymentStatusBody)
    ensures
        final(state).user_store@ == old(state).user_store@,
        final(state).game_store@ == old(state).game_store@,
        final(state).payment_store@.payouts == old(state).payment_store@.payouts,
        match answer {
            Ok(Some(reply)) => reports(
                body,
                ledger_status(reply@.status),
                payment.payment_id@,
                None,
                None,
            ),
            Ok(None) => reports(
                body,
                "pending"@,
                payment.payment_id@,
                Some("Payment not found in Lightning API yet"@),
                None,
            ),
            Err(_) => reports(
                body,
                payment.status@,
                payment.payment_id@,
                None,
                Some("Could not verify payment status with payment provider."@),
            ),
        },
        ({
            ||| final(state).payment_store@ == old(state).payment_store@
            ||| exists|now: Instant|
                representable(now.nanos()) && #[trigger] status_answer(
                    old(state).payment_store@,
                    final(state).payment_store@,
                    payment,
                    answer,
                    now,
                    body,
                )
        }),
{
    let now = match current_time() {
        Ok(now) => now,
        Err(_) => {
            let payment_id = payment.payment_id.as_str();
            return match &answer {
                Ok(Some(reply)) => status_body(
                    ledger_status_for(&reply.status),
                    payment_id,
                    None,
                    None,
                ),
                Ok(None) => status_body(
                    "pending",
                    payment_id,
                    Some("Payment not found in Lightning API yet"),
                    None,
                ),
                Err(_) => status_body(
                    payment.status.as_str(),
                    payment_id,
                    None,
                    Some("Could not verify payment status with payment provider."),
                ),
            };
        },
    };
    payment_status_answered_at(state, payment, answer, &now)
}

/// Whether `reply` says that the player is not eligible, for this reason.
pub open spec fn declines(reply: PrizeEligibility, message: Seq<char>) -> bool {
    &&& !reply.info.eligible
    &&& reply.info.message@ == message
    &&& reply.info.date@ == ""@
    &&& reply.info.amount == 0
    &&& reply.status is None
    &&& reply.has_payment_request is None
}

/// Whether `reply` offers the prize of `date`, worth `amount` sats.
pub open spec fn offers(
    reply: PrizeEligibility,
    date: Seq<char>,
    amount: int,
    status: Option<Seq<char>>,
    has_payment_request: Option<bool>,
) -> bool {
    &&& reply.info.eligible
    &&& reply.info.message@ == "You can claim your prize by submitting a Lightning invoice"@
    &&& reply.info.date@ == date
    &&& reply.info.amount == amount
    &&& opt_text(reply.status) == status
    &&& reply.has_payment_request == has_payment_request
}

fn decline(message: &str) -> (reply: PrizeEligibility)
    ensures
        declines(reply, message@),
{
    PrizeEligibility {
        info: DailyWinnerInfo {
            eligible: false,
            date: String::from_str(""),
            amount: 0,
            message: String::from_str(message),
        },
        status: None,
        has_payment_request: None,
    }
}

/// What a known player is told at `now` about the prize of the day before,
/// and what that does to the ledger. The winner of that day who has no
/// prize on record yet gets one recorded, worth 450 sats for each game paid
/// that day, if any was.
pub open spec fn eligibility_outcome(
    before: LedgerView,
    after: LedgerView,
    winner: Option<int>,
    user_id: int,
    date: Seq<char>,
    now: Instant,
    r: Result<PrizeEligibility, ErrorReply>,
) -> bool {
    let games = reported(count_paid_on_from(before.payments, date, 0));
    if winner != Some(user_id) {
        &&& after == before
        &&& r matches Ok(reply) && declines(
            reply,
            "You were not the top scorer for yesterday's games"@,
        )
    } else if find_prize_from(before.payouts, user_id, date, 0) is Some {
        &&& after == before
        &&& match find_open_prize_from(before.payouts, user_id, date, 0) {
            Some(k) => r matches Ok(reply) && offers(
                reply,
                date,
                before.payouts[k].amount_sats,
                Some("pending"@),
                Some(before.payouts[k].payment_request is Some),
            ),
            None => r matches Ok(reply) && declines(
                reply,
                "You have already claimed your prize for yesterday"@,
            ),
        }
    } else if prize_pool(games) > i64::MAX {
        &&& after == before
        &&& r matches Err(e) && is_error(e, STATUS_BAD_REQUEST, "Prize pool is out of range"@)
    } else if games <= 0 {
        &&& after == before
        &&& r matches Ok(reply) && declines(reply, "No prize pool available for yesterday"@)
    } else {
        &&& after.payments == before.payments
        &&& if next_id(payout_ids(before.payouts)) <= i64::MAX {
            after.payouts == prizes_after_record(
                before.payouts,
                user_id,
                date,
                0,
                prize_pool(games),
                now.text(),
            )
        } else {
            after.payouts == before.payouts
        }
        &&& r matches Ok(reply) && offers(reply, date, prize_pool(games), None, None)
    }
}

/// Asked twice, one call after the other, the winner of a day gets one
/// prize: the second call changes nothing, and where the first has offered
/// the prize and the table was not full, the ledger then holds exactly one
/// prize of the player for the day, which is open, and the second call
/// offers the same amount.
pub proof fn lemma_eligibility_twice(
    before: LedgerView,
    mid: LedgerView,
    after: LedgerView,
    user_id: int,
    date: Seq<char>,
    now: Instant,
    later: Instant,
    first: Result<PrizeEligibility, ErrorReply>,
    second: Result<PrizeEligibility, ErrorReply>,
)
    requires
        before.in_order(),
        eligibility_outcome(before, mid, Some(user_id), user_id, date, now, first),
        eligibility_outcome(mid, after, Some(user_id), user_id, date, later, second),
    ensures
        after == mid,
        first is Ok && first->Ok_0.info.eligible && next_id(payout_ids(before.payouts))
            <= i64::MAX ==> {
            &&& count_prizes_from(mid.payouts, user_id, date, 0) == 1
            &&& find_open_prize_from(mid.payouts, user_id, date, 0) is Some
            &&& second matches Ok(again) && again.info.eligible && again.info.amount
                == first->Ok_0.info.amount
        },
{
    let games = reported(count_paid_on_from(before.payments, date, 0));
    lemma_one_prize_after_record(before.payouts, user_id, date, 0, prize_pool(games), now.text());
    if find_prize_from(before.payouts, user_id, date, 0) is None && prize_pool(games) <= i64::MAX
        && games > 0 {
        if next_id(payout_ids(before.payouts)) <= i64::MAX {
            let prize = recorded_prize(
                before.payouts,
                user_id,
                date,
                0,
                prize_pool(games),
                now.text(),
            );
            lemma_recorded_is_last(before.payouts, prize, user_id, date, 0);
            assert(mid.payouts[before.payouts.len() as int] == prize);
        } else {
            assert(mid == before);
        }
    }
}

/// What a known player is told at `now`: that the day before cannot be
/// written, or the outcome for that day.
pub open spec fn eligibility_answer(
    before: LedgerView,
    after: LedgerView,
    scores: Seq<ScoreView>,
    users: Seq<UserView>,
    user_id: int,
    now: Instant,
    r: Result<PrizeEligibility, ErrorReply>,
) -> bool {
    match day_before(now.nanos()) {
        None => {
            &&& after == before
            &&& r matches Err(e) && is_error(e, STATUS_BAD_REQUEST, "Date is out of range"@)
        },
        Some(date) => eligibility_outcome(
            before,
            after,
            day_winner(scores, users, date),
            user_id,
            date,
            now,
            r,
        ),
    }
}

/// Tells the player with the key `pubkey`, at `now`, whether yesterday's
/// prize is theirs to claim: 401 for a key that is not a player's.
pub fn check_prize_eligibility_at(state: &mut AppState, pubkey: &str, now: &Instant) -> (r: Result<
    PrizeEligibility,
    ErrorReply,
>)
    ensures
        final(state).user_store@ == old(state).user_store@,
        final(state).game_store@ == old(state).game_store@,
        match find_pubkey_from(old(state).user_store@, pubkey@, 0) {
            None => {
                &&& final(state).payment_store@ == old(state).payment_store@
                &&& r matches Err(e) && is_error(e, STATUS_UNAUTHORIZED, "User not found"@)
            },
            Some(u) => eligibility_answer(
                old(state).payment_store@,
                final(state).payment_store@,
                old(state).game_store@.scores,
                old(state).user_store@,
                old(state).user_store@[u].id,
                *now,
                r,
            ),
        },
{
    let user = match find_user(state, pubkey, STATUS_UNAUTHORIZED) {
        Ok(user) => user,
        Err(e) => {
            return Err(e);
        },
    };
    let yesterday = match now.yesterday() {
        Some(date) => date,
        None => {
            return refuse(STATUS_BAD_REQUEST, "Date is out of range");
        },
    };
    let date = yesterday.as_str();
    let was_top_scorer = match state.payment_store.check_top_scorer(
        &state.game_store,
        &state.user_store,
        user.id,
        date,
    ) {
        Ok(won) => won,
        Err(e) => {
            return Err(map_error(e));
        },
    };
    if !was_top_scorer {
        return Ok(decline("You were not the top scorer for yesterday's games"));
    }
    let already_claimed = match state.payment_store.check_prize_claimed(user.id, date) {
        Ok(claimed) => claimed,
        Err(e) => {
            return Err(map_error(e));
        },
    };
    if already_claimed {
        return match state.payment_store.get_pending_prize_for_user(user.id, date) {
            Ok(Some(prize)) => Ok(
                PrizeEligibility {
                    info: DailyWinnerInfo {
                        eligible: true,
                        date: yesterday,
                        amount: prize.amount_sats,
                        message: String::from_str(
                            "You can claim your prize by submitting a Lightning invoice",
                        ),
                    },
                    status: Some(String::from_str("pending")),
                    has_payment_request: Some(prize.payment_request.is_some()),
                },
            ),
            Ok(None) => Ok(decline("You have already claimed your prize for yesterday")),
            Err(e) => Err(map_error(e)),
        };
    }
    let total_games = match state.payment_store.count_games_for_date(date) {
        Ok(count) => count,
        Err(e) => {
            return Err(map_error(e));
        },
    };
    let prize = match prize_amount(total_games) {
        Some(prize) => prize,
        None => {
            return refuse(STATUS_BAD_REQUEST, "Prize pool is out of range");
        },
    };
    if prize <= 0 {
        return Ok(decline("No prize pool available for yesterday"));
    }
    let _ = state.payment_store.record_daily_winner_at(user.id, date, 0, prize, now);
    Ok(
        PrizeEligibility {
            info: DailyWinnerInfo {
                eligible: true,
                date: yesterday,
                amount: prize,
                message: String::from_str(
                    "You can claim your prize by submitting a Lightning invoice",
                ),
            },
            status: None,
            has_payment_request: None,
        },
    )
}

/// Tells the player with the key `pubkey` whether yesterday's prize is
/// theirs to claim.
pub fn check_prize_eligibility(state: &mut AppState, pubkey: &str) -> (r: Result<
    PrizeEligibility,
    ErrorReply,
>)
    ensures
        find_pubkey_from(old(state).user_store@, pubkey@, 0) matches Some(u) ==> ({
            ||| {
                &&& r matches Err(e) && clock_reply(e)
                &&& final(state).payment_store@ == old(state).payment_store@
            }
            ||| exists|now: Instant|
                representable(now.nanos()) && #[trigger] eligibility_answer(
                    old(state).payment_store@,
                    final(state).payment_store@,
                    old(state).game_store@.scores,
                    old(state).user_store@,
                    old(state).user_store@[u].id,
                    now,
                    r,
                )
        }),
        final(state).user_store@ == old(state).user_store@,
        final(state).game_store@ == old(state).game_store@,
        final(state).payment_store@.payments == old(state).payment_store@.payments,
        find_pubkey_from(old(state).user_store@, pubkey@, 0) is None ==> {
            &&& final(state).payment_store@ == old(state).payment_store@
            &&& r matches Err(e) && is_error(e, STATUS_UNAUTHORIZED, "User not found"@)
        },
        r is Err ==> final(state).payment_store@ == old(state).payment_store@,
        r matches Ok(reply) ==> (reply.info.eligible ==> reply.info.amount > 0 || reply.status
            is Some),
{
    let now = match current_time() {
        Ok(now) => now,
        Err(e) => {
            match find_user(state, pubkey, STATUS_UNAUTHORIZED) {
                Ok(_) => {
                    return Err(map_error(e));
                },
                Err(missing) => {
                    return Err(missing);
                },
            }
        },
    };
    check_prize_eligibility_at(state, pubkey, &now)
}

/// What the claim handler does first for a known player, at `now`, and what
/// that does to the ledger. An invoice that does not begin with `lnbc` is
/// refused before anything else is looked at. The prize must be the
/// player's and still open; the invoice is attached to it, and the payment
/// is handed to the provider.
pub open spec fn claim_opening(
    before: LedgerView,
    after: LedgerView,
    winner: Option<int>,
    user_id: int,
    request: ClaimPrizeRequest,
    now: Instant,
    step: ClaimStep,
) -> bool {
    if !"lnbc"@.is_prefix_of(request.invoice@) {
        &&& after == before
        &&& step matches ClaimStep::Respond(Err(e)) && is_error(
            e,
            STATUS_BAD_REQUEST,
            "Invalid Lightning invoice"@,
        )
    } else if winner != Some(user_id) {
        &&& after == before
        &&& step matches ClaimStep::Respond(Err(e)) && is_error(
            e,
            STATUS_FORBIDDEN,
            "You were not the top scorer for this date"@,
        )
    } else {
        match find_open_prize_from(before.payouts, user_id, request.date@, 0) {
            None => {
                &&& after == before
                &&& step matches ClaimStep::Respond(Err(e)) && is_error(
                    e,
                    STATUS_NOT_FOUND,
                    "No eligible prize found for this date"@,
                )
            },
            Some(k) => {
                let prize = before.payouts[k];
                &&& after == (LedgerView {
                    payouts: prizes_after_invoice(
                        before.payouts,
                        user_id,
                        request.date@,
                        request.invoice@,
                        now.text(),
                    ),
                    ..before
                })
                &&& if i64::MIN <= prize.amount_sats * 1000 <= i64::MAX {
                    step matches ClaimStep::Pay { prize_id, invoice, amount_msats, amount_sats }
                        && prize_id == prize.id && invoice@ == request.invoice@ && amount_msats
                        == prize.amount_sats * 1000 && amount_sats == prize.amount_sats
                } else {
                    step matches ClaimStep::Respond(Err(e)) && is_error(
                        e,
                        STATUS_BAD_REQUEST,
                        "Prize amount is out of range"@,
                    )
                }
            },
        }
    }
}

/// Takes up a prize claim at `now`: 401 for a key that is not a player's,
/// else the first step for the player.
pub fn claim_prize_at(
    state: &mut AppState,
    pubkey: &str,
    request: ClaimPrizeRequest,
    now: &Instant,
) -> (step: ClaimStep)
    ensures
        final(state).user_store@ == old(state).user_store@,
        final(state).game_store@ == old(state).game_store@,
        match find_pubkey_from(old(state).user_store@, pubkey@, 0) {
            None => {
                &&& final(state).payment_store@ == old(state).payment_store@
                &&& step matches ClaimStep::Respond(Err(e)) && is_error(
                    e,
                    STATUS_UNAUTHORIZED,
                    "User not found"@,
                )
            },
            Some(u) => claim_opening(
                old(state).payment_store@,
                final(state).payment_store@,
                day_winner(old(state).game_store@.scores, old(state).user_store@, request.date@),
                old(state).user_store@[u].id,
                request,
                *now,
                step,
            ),
        },
{
    let user = match find_user(state, pubkey, STATUS_UNAUTHORIZED) {
        Ok(user) => user,
        Err(e) => {
            return ClaimStep::Respond(Err(e));
        },
    };
    if !starts_with(request.invoice.as_str(), "lnbc") {
        return ClaimStep::Respond(refuse(STATUS_BAD_REQUEST, "Invalid Lightning invoice"));
    }
    let date = request.date.as_str();
    let was_top_scorer = match state.payment_store.check_top_scorer(
        &state.game_store,
        &state.user_store,
        user.id,
        date,
    ) {
        Ok(won) => won,
        Err(e) => {
            return ClaimStep::Respond(Err(map_error(e)));
        },
    };
    if !was_top_scorer {
        return ClaimStep::Respond(
            refuse(STATUS_FORBIDDEN, "You were not the top scorer for this date"),
        );
    }
    match state.payment_store.get_pending_prize_for_user(user.id, date) {
        Ok(Some(_)) => {},
        Ok(None) => {
            return ClaimStep::Respond(
                refuse(STATUS_NOT_FOUND, "No eligible prize found for this date"),
            );
        },
        Err(e) => {
            return ClaimStep::Respond(Err(map_error(e)));
        },
    }
    let updated = match state.payment_store.update_prize_with_invoice_at(
        user.id,
        date,
        request.invoice.as_str(),
        now,
    ) {
        Ok(Some(prize)) => prize,
        Ok(None) => {
            return ClaimStep::Respond(
                refuse(STATUS_NOT_FOUND, "Failed to update prize with invoice"),
            );
        },
        Err(e) => {
            return ClaimStep::Respond(Err(map_error(e)));
        },
    };
    match to_msats(updated.amount_sats) {
        Some(amount_msats) => ClaimStep::Pay {
            prize_id: updated.id,
            invoice: request.invoice,
            amount_msats,
            amount_sats: updated.amount_sats,
        },
        None => ClaimStep::Respond(refuse(STATUS_BAD_REQUEST, "Prize amount is out of range")),
    }
}

/// Takes up a prize claim now.
pub fn claim_prize(state: &mut AppState, pubkey: &str, request: ClaimPrizeRequest) -> (step:
    ClaimStep)
    ensures
        find_pubkey_from(old(state).user_store@, pubkey@, 0) matches Some(u) ==> ({
            ||| !"lnbc"@.is_prefix_of(request.invoice@)
            ||| {
                &&& step matches ClaimStep::Respond(Err(e)) && clock_reply(e)
                &&& final(state).payment_store@ == old(state).payment_store@
            }
            ||| exists|now: Instant|
                representable(now.nanos()) && #[trigger] claim_opening(
                    old(state).payment_store@,
                    final(state).payment_store@,
                    day_winner(
                        old(state).game_store@.scores,
                        old(state).user_store@,
                        request.date@,
                    ),
                    old(state).user_store@[u].id,
                    request,
                    now,
                    step,
                )
        }),
        final(state).user_store@ == old(state).user_store@,
        final(state).game_store@ == old(state).game_store@,
        final(state).payment_store@.payments == old(state).payment_store@.payments,
        find_pubkey_from(old(state).user_store@, pubkey@, 0) is None ==> {
            &&& final(state).payment_store@ == old(state).payment_store@
            &&& step matches ClaimStep::Respond(Err(e)) && is_error(
                e,
                STATUS_UNAUTHORIZED,
                "User not found"@,
            )
        },
        find_pubkey_from(old(state).user_store@, pubkey@, 0) is Some && !"lnbc"@.is_prefix_of(
            request.invoice@,
        ) ==> {
            &&& final(state).payment_store@ == old(state).payment_store@
            &&& step matches ClaimStep::Respond(Err(e)) && is_error(
                e,
                STATUS_BAD_REQUEST,
                "Invalid Lightning invoice"@,
            )
        },
        step matches ClaimStep::Pay { prize_id, invoice, amount_msats, amount_sats } ==> {
            &&& invoice@ == request.invoice@
            &&& amount_msats == amount_sats * 1000
            &&& find_pubkey_from(old(state).user_store@, pubkey@, 0) matches Some(u)
                && find_open_prize_from(
                old(state).payment_store@.payouts,
                old(state).user_store@[u].id,
                request.date@,
                0,
            ) matches Some(k) && old(state).payment_store@.payouts[k].id == prize_id && old(
                state,
            ).payment_store@.payouts[k].amount_sats == amount_sats
        },
{
    let user = match find_user(state, pubkey, STATUS_UNAUTHORIZED) {
        Ok(user) => user,
        Err(e) => {
            return ClaimStep::Respond(Err(e));
        },
    };
    if !starts_with(request.invoice.as_str(), "lnbc") {
        return ClaimStep::Respond(refuse(STATUS_BAD_REQUEST, "Invalid Lightning invoice"));
    }
    let now = match current_time() {
        Ok(now) => now,
        Err(e) => {
            return ClaimStep::Respond(Err(map_error(e)));
        },
    };
    claim_prize_at(state, pubkey, request, &now)
}

/// The detail of the error for a payout that the provider did not carry
/// out.
pub open spec fn payout_failure(error: LightningError) -> Seq<char> {
    "Failed to send payment: "@ + (error.heading() + error.detail())
}

/// The id by which the provider knows a payout, or "unknown" where its
/// answer names none.
pub open spec fn payout_reference(payment: Payment) -> Seq<char> {
    match payment@.id {
        Some(id) => id,
        None => "unknown"@,
    }
}

/// What the claim handler answers to the outcome of the payout, and what
/// that does to the ledger: a prize that was paid is settled as paid under
/// the provider's id, one that was not as failed.
pub open spec fn claim_closing(
    before: LedgerView,
    after: LedgerView,
    prize_id: int,
    amount_sats: int,
    outcome: Result<Payment, LightningError>,
    now: Instant,
    r: Result<ClaimBody, ErrorReply>,
) -> bool {
    match outcome {
        Ok(payment) => {
            &&& after == (LedgerView {
                payouts: prizes_after_status(
                    before.payouts,
                    prize_id,
                    "paid"@,
                    Some(payout_reference(payment)),
                    now.text(),
                ),
                ..before
            })
            &&& r matches Ok(body) && {
                &&& body.success
                &&& body.message@ == "Prize payment sent successfully"@
                &&& body.payment_id@ == payout_reference(payment)
                &&& body.amount == amount_sats
            }
        },
        Err(error) => {
            &&& after == (LedgerView {
                payouts: prizes_after_status(before.payouts, prize_id, "failed"@, None, now.text()),
                ..before
            })
            &&& r matches Err(e) && is_error(
                e,
                STATUS_INTERNAL_SERVER_ERROR,
                payout_failure(error),
            )
        },
    }
}

/// Takes the claim handler up again at `now` with the outcome of the
/// payout.
pub fn prize_payment_finished_at(
    state: &mut AppState,
    prize_id: i64,
    amount_sats: i64,
    outcome: Result<Payment, LightningError>,
    now: &Instant,
) -> (r: Result<ClaimBody, ErrorReply>)
    ensures
        final(state).user_store@ == old(state).user_store@,
        final(state).game_store@ == old(state).game_store@,
        claim_closing(
            old(state).payment_store@,
            final(state).payment_store@,
            prize_id as int,
            amount_sats as int,
            outcome,
            *now,
            r,
        ),
{
    match &outcome {
        Ok(payment) => {
            let payment_id = match &payment.id {
                Some(id) => id.clone(),
                None => String::from_str("unknown"),
            };
            match state.payment_store.update_prize_status_at(
                prize_id,
                "paid",
                Some(payment_id.as_str()),
                now,
            ) {
                Ok(_) => Ok(
                    ClaimBody {
                        success: true,
                        message: String::from_str("Prize payment sent successfully"),
                        payment_id,
                        amount: amount_sats,
                    },
                ),
                Err(e) => Err(map_error(e)),
            }
        },
        Err(error) => {
            let _ = state.payment_store.update_prize_status_at(prize_id, "failed", None, now);
            Err(
                ErrorReply {
                    status: STATUS_INTERNAL_SERVER_ERROR,
                    message: concat2("Failed to send payment: ", error.message().as_str()),
                },
            )
        },
    }
}

/// What the claim handler answers to the outcome of the payout where the
/// clock cannot be read, and what that does to the ledger: the prize is
/// settled all the same, as paid under the provider's id or as failed, and
/// keeps the time of its last change.
pub open spec fn claim_closing_undated(
    before: LedgerView,
    after: LedgerView,
    prize_id: int,
    amount_sats: int,
    outcome: Result<Payment, LightningError>,
    r: Result<ClaimBody, ErrorReply>,
) -> bool {
    match outcome {
        Ok(payment) => {
            &&& after == (LedgerView {
                payouts: prizes_settled(
                    before.payouts,
                    prize_id,
                    "paid"@,
                    Some(payout_reference(payment)),
                    None,
                ),
                ..before
            })
            &&& r matches Ok(body) && {
                &&& body.success
                &&& body.message@ == "Prize payment sent successfully"@
                &&& body.payment_id@ == payout_reference(payment)
                &&& body.amount == amount_sats
            }
        },
        Err(error) => {
            &&& after == (LedgerView {
                payouts: prizes_settled(before.payouts, prize_id, "failed"@, None, None),
                ..before
            })
            &&& r matches Err(e) && is_error(
                e,
                STATUS_INTERNAL_SERVER_ERROR,
                payout_failure(error),
            )
        },
    }
}

/// Takes the claim handler up again with the outcome of the payout where
/// the clock cannot be read.
pub fn prize_payment_finished_undated(
    state: &mut AppState,
    prize_id: i64,
    amount_sats: i64,
    outcome: Result<Payment, LightningError>,
) -> (r: Result<ClaimBody, ErrorReply>)
    ensures
        final(state).user_store@ == old(state).user_store@,
        final(state).game_store@ == old(state).game_store@,
        claim_closing_undated(
            old(state).payment_store@,
            final(state).payment_store@,
            prize_id as int,
            amount_sats as int,
            outcome,
            r,
        ),
{
    match &outcome {
        Ok(payment) => {
            let payment_id = match &payment.id {
                Some(id) => id.clone(),
                None => String::from_str("unknown"),
            };
            let _ = state.payment_store.update_prize_status_undated(
                prize_id,
                "paid",
                Some(payment_id.as_str()),
            );
            Ok(
                ClaimBody {
                    success: true,
                    message: String::from_str("Prize payment sent successfully"),
                    payment_id,
                    amount: amount_sats,
                },
            )
        },
        Err(error) => {
            let _ = state.payment_store.update_prize_status_undated(prize_id, "failed", None);
            Err(
                ErrorReply {
                    status: STATUS_INTERNAL_SERVER_ERROR,
                    message: concat2("Failed to send payment: ", error.message().as_str()),
                },
            )
        },
    }
}

/// Takes the claim handler up again now with the outcome of the payout. The
/// prize is settled whether or not the clock can be read, so that a payout
/// that was carried out is never left open to a second claim.
pub fn prize_payment_finished(
    state: &mut AppState,
    prize_id: i64,
    amount_sats: i64,
    outcome: Result<Payment, LightningError>,
) -> (r: Result<ClaimBody, ErrorReply>)
    ensures
        ({
            ||| claim_closing_undated(
                old(state).payment_store@,
                final(state).payment_store@,
                prize_id as int,
                amount_sats as int,
                outcome,
                r,
            )
            ||| exists|now: Instant|
                representable(now.nanos()) && #[trigger] claim_closing(
                    old(state).payment_store@,
                    final(state).payment_store@,
                    prize_id as int,
                    amount_sats as int,
                    outcome,
                    now,
                    r,
                )
        }),
        final(state).user_store@ == old(state).user_store@,
        final(state).game_store@ == old(state).game_store@,
        final(state).payment_store@.payments == old(state).payment_store@.payments,
        match outcome {
            Ok(payment) => r matches Ok(body) && {
                &&& body.success
                &&& body.payment_id@ == payout_reference(payment)
                &&& body.amount == amount_sats
            },
            Err(error) => r matches Err(e) && is_error(
                e,
                STATUS_INTERNAL_SERVER_ERROR,
                payout_failure(error),
            ),
        },
{
    match current_time() {
        Ok(now) => prize_payment_finished_at(state, prize_id, amount_sats, outcome, &now),
        Err(_) => prize_payment_finished_undated(state, prize_id, amount_sats, outcome),
    }
}

} // verus!
