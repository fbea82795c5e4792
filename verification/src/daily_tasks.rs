//! The daily settlement: once a day, shortly after midnight UTC, the winner
//! of the day before is recorded with the prize that the day's entry fees
//! pay for. A tick outside that time does nothing, and one that comes twice
//! records nothing twice.

use vstd::prelude::*;
use vstd::string::*;
use crate::clock::{day_before, Instant};
use crate::domain::payments::store::{
    count_paid_on_from, day_keys, find_prize_from, payout_ids,
    prizes_after_record, reported, winner, LedgerView,
};
use crate::domain::games::store::ScoreView;
use crate::domain::users::store::UserView;
use crate::domain::Error;
use crate::settlement::{in_settlement_window, in_window, prize_amount, prize_pool};
use crate::startup::AppState;
use crate::table::next_id;

verus! {

/// Seconds between two ticks of the settlement.
pub const TICK_SECONDS: u64 = 3600;

/// What a tick of the settlement did.
#[derive(Debug)]
pub enum DailyOutcome {
    /// The clock could not be read as a time.
    ClockOutOfRange,
    /// It is not the time of day at which days are settled.
    OutsideWindow,
    /// No score was submitted on the day.
    NoScores { date: String },
    /// Nobody paid for a game on the day, so there is no prize.
    NoGames { date: String },
    /// The prize of the day does not fit the ledger.
    PrizeOutOfRange { date: String },
    /// The winner is on record, now or from an earlier tick.
    Recorded { date: String, user_id: i64, prize_sats: i64 },
    /// The winner could not be recorded.
    RecordFailed { date: String, error: Error },
}

/// The date under which a day that cannot be written is looked up: no
/// score and no payment bears it.
pub open spec fn settled_date(now: Instant) -> Seq<char> {
    match day_before(now.nanos()) {
        Some(date) => date,
        None => "unknown"@,
    }
}

/// What a tick at `now` does to the ledger, and what it reports: inside the
/// window, the winner of the day before is recorded with a prize of 450
/// sats for each game paid that day, unless the player already has a prize
/// for that day.
pub open spec fn tick_outcome(
    before: LedgerView,
    after: LedgerView,
    winner_user: Option<int>,
    winner_score: int,
    now: Instant,
    outcome: DailyOutcome,
) -> bool {
    let date = settled_date(now);
    let games = reported(count_paid_on_from(before.payments, date, 0));
    if !in_window(now.spec_hour(), now.spec_minute()) {
        after == before && outcome is OutsideWindow
    } else {
        match winner_user {
            None => {
                &&& after == before
                &&& outcome matches DailyOutcome::NoScores { date: d } && d@ == date
            },
            Some(user_id) => if games <= 0 {
                &&& after == before
                &&& outcome matches DailyOutcome::NoGames { date: d } && d@ == date
            } else if prize_pool(games) > i64::MAX {
                &&& after == before
                &&& outcome matches DailyOutcome::PrizeOutOfRange { date: d } && d@ == date
            } else if find_prize_from(before.payouts, user_id, date, 0) is None && next_id(
                payout_ids(before.payouts),
            ) > i64::MAX {
                &&& after == before
                &&& outcome matches DailyOutcome::RecordFailed { date: d, error } && d@ == date
                    && error is Database
            } else {
                &&& after == (LedgerView {
                    payouts: prizes_after_record(
                        before.payouts,
                        user_id,
                        date,
                        winner_score,
                        prize_pool(games),
                        now.text(),
                    ),
                    ..before
                })
                &&& outcome matches DailyOutcome::Recorded { date: d, user_id: u, prize_sats }
                    && d@ == date && u == user_id && prize_sats == prize_pool(games)
            },
        }
    }
}

/// A second tick for the same day changes nothing: once a tick has put the
/// winner of a day on record, a later tick that settles the same day, as
/// one after a restart does, leaves the ledger as it is.
pub proof fn lemma_tick_twice(
    before: LedgerView,
    mid: LedgerView,
    after: LedgerView,
    winner_user: Option<int>,
    winner_score: int,
    now: Instant,
    later: Instant,
    first: DailyOutcome,
    second: DailyOutcome,
)
    requires
        settled_date(now) == settled_date(later),
        tick_outcome(before, mid, winner_user, winner_score, now, first),
        tick_outcome(mid, after, winner_user, winner_score, later, second),
        first is Recorded,
    ensures
        after == mid,
        winner_user matches Some(user_id) && find_prize_from(
            after.payouts,
            user_id,
            settled_date(now),
            0,
        ) is Some,
{
    let date = settled_date(now);
    let games = reported(count_paid_on_from(before.payments, date, 0));
    let user_id = winner_user->0;
    crate::domain::payments::store::lemma_recorded_is_found(
        before.payouts,
        user_id,
        date,
        winner_score,
        prize_pool(games),
        now.text(),
    );
    crate::domain::payments::store::lemma_record_twice(
        before.payouts,
        user_id,
        date,
        winner_score,
        prize_pool(games),
        now.text(),
        winner_score,
        prize_pool(games),
        later.text(),
    );
}

/// What a tick at `now` does, given the scores and the players: the winner
/// of the day before is the one whom the outcome is about.
pub open spec fn tick_at(
    before: LedgerView,
    after: LedgerView,
    scores: Seq<ScoreView>,
    users: Seq<UserView>,
    now: Instant,
    outcome: DailyOutcome,
) -> bool {
    let keys = day_keys(scores, users, settled_date(now));
    tick_outcome(
        before,
        after,
        match winner(keys) {
            Some(p) => Some(scores[p].user_id),
            None => None,
        },
        match winner(keys) {
            Some(p) => scores[p].score,
            None => 0,
        },
        now,
        outcome,
    )
}

/// One tick of the settlement at `now`.
pub fn run_daily_tasks_at(state: &mut AppState, now: &Instant) -> (outcome: DailyOutcome)
    ensures
        final(state).user_store@ == old(state).user_store@,
        final(state).game_store@ == old(state).game_store@,
        tick_at(
            old(state).payment_store@,
            final(state).payment_store@,
            old(state).game_store@.scores,
            old(state).user_store@,
            *now,
            outcome,
        ),
{
    if !in_settlement_window(now) {
        return DailyOutcome::OutsideWindow;
    }
    let yesterday = match now.yesterday() {
        Some(date) => date,
        None => String::from_str("unknown"),
    };
    let date = yesterday.as_str();
    let scorer = match state.payment_store.get_top_scorer_for_date(
        &state.game_store,
        &state.user_store,
        date,
    ) {
        Ok(Some(scorer)) => scorer,
        Ok(None) => {
            return DailyOutcome::NoScores { date: yesterday };
        },
        Err(error) => {
            return DailyOutcome::RecordFailed { date: yesterday, error };
        },
    };
    let games_count = match state.payment_store.count_games_for_date(date) {
        Ok(count) => count,
        Err(error) => {
            return DailyOutcome::RecordFailed { date: yesterday, error };
        },
    };
    if games_count <= 0 {
        return DailyOutcome::NoGames { date: yesterday };
    }
    let prize_sats = match prize_amount(games_count) {
        Some(prize) => prize,
        None => {
            return DailyOutcome::PrizeOutOfRange { date: yesterday };
        },
    };
    match state.payment_store.record_daily_winner_at(
        scorer.user_id,
        date,
        scorer.score,
        prize_sats,
        now,
    ) {
        Ok(_) => DailyOutcome::Recorded { date: yesterday, user_id: scorer.user_id, prize_sats },
        Err(error) => DailyOutcome::RecordFailed { date: yesterday, error },
    }
}

/// One tick of the settlement now. The caller ticks once an hour.
pub fn run_daily_tasks(state: &mut AppState) -> (outcome: DailyOutcome)
    ensures
        final(state).user_store@ == old(state).user_store@,
        final(state).game_store@ == old(state).game_store@,
        final(state).payment_store@.payments == old(state).payment_store@.payments,
        ({
            ||| outcome is ClockOutOfRange && final(state).payment_store@ == old(
                state,
            ).payment_store@
            ||| exists|now: Instant|
                crate::clock::representable(now.nanos()) && #[trigger] tick_at(
                    old(state).payment_store@,
                    final(state).payment_store@,
                    old(state).game_store@.scores,
                    old(state).user_store@,
                    now,
                    outcome,
                )
        }),
        match outcome {
            DailyOutcome::Recorded { date, user_id, prize_sats } => {
                &&& prize_sats > 0
                &&& find_prize_from(final(state).payment_store@.payouts, user_id as int, date@, 0)
                    is Some
            },
            _ => final(state).payment_store@ == old(state).payment_store@,
        },
{
    let now = match Instant::now() {
        Some(now) => now,
        None => {
            return DailyOutcome::ClockOutOfRange;
        },
    };
    let _ = now.unix_nanos();
    let ghost before = state.payment_store@;
    let outcome = run_daily_tasks_at(state, &now);
    proof {
        if let DailyOutcome::Recorded { date, user_id, prize_sats } = &outcome {
            crate::domain::payments::store::lemma_recorded_is_found(
                before.payouts,
                user_id as int,
                date@,
                state.game_store@.scores[winner(
                    day_keys(state.game_store@.scores, state.user_store@, settled_date(now)),
                )->0].score,
                prize_sats as int,
                now.text(),
            );
        }
    }
    outcome
}

} // verus!
