//! The payment ledger: the entry fees that players owe or have paid, and the
//! prizes recorded for each day's winner. Times are compared as text, byte
//! by byte, never as instants.

use vstd::prelude::*;
use vstd::string::*;
use crate::clock::{iso8601_text, representable, Instant};
use crate::domain::games::store::{GameStore, ScoreView};
use crate::domain::users::store::{find_user_id_from, UserStore, UserView};
use crate::domain::{clock_stopped, current_time, Error};
use crate::table::{
    check_ids, following_id, ids_in_order, lemma_push_in_order,
    next_id, outranks, positions, rank, ranked, wide,
};
use crate::text::{
    clone_opt, concat2, lemma_text_le_refl, lemma_text_le_total, lemma_text_le_trans, opt_str,
    opt_text, str_eq, str_le,
    str_lt, text_between, text_le, text_lt,
};

verus! {

/// Seconds for which a paid entry fee keeps admitting its player.
pub const VALIDITY_SECONDS: i64 = 3600;

/// An entry fee.
#[derive(Debug)]
pub struct GamePayment {
    pub id: i64,
    pub user_id: i64,
    pub payment_id: String,
    pub invoice: String,
    pub amount_sats: i64,
    pub status: String,
    pub created_at: String,
    pub updated_at: String,
    pub paid_at: Option<String>,
}

/// An entry fee as plain values.
pub struct GamePaymentView {
    pub id: int,
    pub user_id: int,
    pub payment_id: Seq<char>,
    pub invoice: Seq<char>,
    pub amount_sats: int,
    pub status: Seq<char>,
    pub created_at: Seq<char>,
    pub updated_at: Seq<char>,
    pub paid_at: Option<Seq<char>>,
}

impl View for GamePayment {
    type V = GamePaymentView;

    open spec fn view(&self) -> GamePaymentView {
        GamePaymentView {
            id: self.id as int,
            user_id: self.user_id as int,
            payment_id: self.payment_id@,
            invoice: self.invoice@,
            amount_sats: self.amount_sats as int,
            status: self.status@,
            created_at: self.created_at@,
            updated_at: self.updated_at@,
            paid_at: opt_text(self.paid_at),
        }
    }
}

impl Clone for GamePayment {
    fn clone(&self) -> (copy: Self)
        ensures
            copy@ == self@,
    {
        GamePayment {
            id: self.id,
            user_id: self.user_id,
            payment_id: self.payment_id.clone(),
            invoice: self.invoice.clone(),
            amount_sats: self.amount_sats,
            status: self.status.clone(),
            created_at: self.created_at.clone(),
            updated_at: self.updated_at.clone(),
            paid_at: clone_opt(&self.paid_at),
        }
    }
}

/// The prize recorded for the winner of one day.
#[derive(Debug)]
pub struct PrizePayout {
    pub id: i64,
    pub user_id: i64,
    pub date: String,
    pub score: i64,
    pub amount_sats: i64,
    pub payment_request: Option<String>,
    pub payment_id: Option<String>,
    pub status: String,
    pub created_at: String,
    pub updated_at: String,
    pub paid_at: Option<String>,
}

/// A prize as plain values.
pub struct PrizePayoutView {
    pub id: int,
    pub user_id: int,
    pub date: Seq<char>,
    pub score: int,
    pub amount_sats: int,
    pub payment_request: Option<Seq<char>>,
    pub payment_id: Option<Seq<char>>,
    pub status: Seq<char>,
    pub created_at: Seq<char>,
    pub updated_at: Seq<char>,
    pub paid_at: Option<Seq<char>>,
}

impl View for PrizePayout {
    type V = PrizePayoutView;

    open spec fn view(&self) -> PrizePayoutView {
        PrizePayoutView {
            id: self.id as int,
            user_id: self.user_id as int,
            date: self.date@,
            score: self.score as int,
            amount_sats: self.amount_sats as int,
            payment_request: opt_text(self.payment_request),
            payment_id: opt_text(self.payment_id),
            status: self.status@,
            created_at: self.created_at@,
            updated_at: self.updated_at@,
            paid_at: opt_text(self.paid_at),
        }
    }
}

impl Clone for PrizePayout {
    fn clone(&self) -> (copy: Self)
        ensures
            copy@ == self@,
    {
        PrizePayout {
            id: self.id,
            user_id: self.user_id,
            date: self.date.clone(),
            score: self.score,
            amount_sats: self.amount_sats,
            payment_request: clone_opt(&self.payment_request),
            payment_id: clone_opt(&self.payment_id),
            status: self.status.clone(),
            created_at: self.created_at.clone(),
            updated_at: self.updated_at.clone(),
            paid_at: clone_opt(&self.paid_at),
        }
    }
}

/// The best player of one day.
#[derive(Debug)]
pub struct TopScorer {
    pub user_id: i64,
    pub score: i64,
    pub games_played: i64,
    pub username: String,
}

pub open spec fn payment_views(rows: Seq<GamePayment>) -> Seq<GamePaymentView> {
    Seq::new(rows.len(), |i: int| rows[i]@)
}

pub open spec fn payout_views(rows: Seq<PrizePayout>) -> Seq<PrizePayoutView> {
    Seq::new(rows.len(), |i: int| rows[i]@)
}

pub open spec fn payment_ids(rows: Seq<GamePaymentView>) -> Seq<int> {
    Seq::new(rows.len(), |i: int| rows[i].id)
}

pub open spec fn payout_ids(rows: Seq<PrizePayoutView>) -> Seq<int> {
    Seq::new(rows.len(), |i: int| rows[i].id)
}

/// Whether a prize is the one of `user_id` for `date`.
pub open spec fn is_prize_of(row: PrizePayoutView, user_id: int, date: Seq<char>) -> bool {
    row.user_id == user_id && row.date == date
}

/// No player has two prizes for one day.
pub open spec fn one_prize_each(rows: Seq<PrizePayoutView>) -> bool {
    forall|i: int, j: int|
        0 <= i < j < rows.len() ==> !(#[trigger] rows[i].user_id == #[trigger] rows[j].user_id
            && rows[i].date == rows[j].date)
}

/// The two tables of the ledger.
pub struct LedgerView {
    pub payments: Seq<GamePaymentView>,
    pub payouts: Seq<PrizePayoutView>,
}

impl LedgerView {
    /// The ledger is in order: ids grow from row to row, and no player has
    /// two prizes for one day.
    pub open spec fn in_order(self) -> bool {
        &&& ids_in_order(payment_ids(self.payments))
        &&& ids_in_order(payout_ids(self.payouts))
        &&& one_prize_each(self.payouts)
    }

    /// The ledger with nothing in it.
    pub open spec fn empty() -> LedgerView {
        LedgerView { payments: Seq::empty(), payouts: Seq::empty() }
    }
}

/// The entry fee that `create_game_payment` adds to `rows`.
pub open spec fn opened_payment(
    rows: Seq<GamePaymentView>,
    user_id: int,
    payment_id: Seq<char>,
    invoice: Seq<char>,
    amount_sats: int,
    now: Seq<char>,
) -> GamePaymentView {
    GamePaymentView {
        id: next_id(payment_ids(rows)),
        user_id,
        payment_id,
        invoice,
        amount_sats,
        status: "pending"@,
        created_at: now,
        updated_at: now,
        paid_at: None,
    }
}

/// The position of the first entry fee from `i` on that the provider knows
/// as `payment_id`.
pub open spec fn find_payment_from(rows: Seq<GamePaymentView>, payment_id: Seq<char>, i: int)
    -> Option<int>
    decreases rows.len() - i,
{
    if i < 0 || i >= rows.len() {
        None
    } else if rows[i].payment_id == payment_id {
        Some(i)
    } else {
        find_payment_from(rows, payment_id, i + 1)
    }
}

/// The time of payment that goes with a status: `now` for "paid", none for
/// any other.
pub open spec fn paid_at_for(status: Seq<char>, now: Seq<char>) -> Option<Seq<char>> {
    if status == "paid"@ {
        Some(now)
    } else {
        None
    }
}

/// An entry fee after it has moved to `status` at `now`.
pub open spec fn moved_payment(row: GamePaymentView, status: Seq<char>, now: Seq<char>)
    -> GamePaymentView {
    GamePaymentView { status, updated_at: now, paid_at: paid_at_for(status, now), ..row }
}

/// Whether a status update for `payment_id` touches `row`: it is that
/// payment, it is still pending, and the status is another. A payment moves
/// one way, from pending to what settles it, and never back.
pub open spec fn moves(row: GamePaymentView, payment_id: Seq<char>, status: Seq<char>) -> bool {
    row.payment_id == payment_id && row.status == "pending"@ && status != "pending"@
}

/// The entry fees after `payment_id` has been given `status` at `now`.
pub open spec fn payments_after_status(
    rows: Seq<GamePaymentView>,
    payment_id: Seq<char>,
    status: Seq<char>,
    now: Seq<char>,
) -> Seq<GamePaymentView> {
    Seq::new(
        rows.len(),
        |i: int|
            if moves(rows[i], payment_id, status) {
                moved_payment(rows[i], status, now)
            } else {
                rows[i]
            },
    )
}

/// Whether an entry fee is an open one of `user_id`.
pub open spec fn is_pending_of(row: GamePaymentView, user_id: int) -> bool {
    row.user_id == user_id && row.status == "pending"@
}

/// The position, among the first `n` rows, of the open entry fee of
/// `user_id` that was created last: the greatest creation time, and of
/// several with that time the row added last.
pub open spec fn latest_pending_upto(rows: Seq<GamePaymentView>, user_id: int, n: int) -> Option<
    int,
>
    decreases n,
{
    if n <= 0 || n > rows.len() {
        None
    } else {
        let before = latest_pending_upto(rows, user_id, n - 1);
        if is_pending_of(rows[n - 1], user_id) && (before is None || text_le(
            rows[before->0].created_at,
            rows[n - 1].created_at,
        )) {
            Some(n - 1)
        } else {
            before
        }
    }
}

/// Whether an entry fee of `user_id` was paid after `cutoff`.
pub open spec fn is_paid_after(row: GamePaymentView, user_id: int, cutoff: Seq<char>) -> bool {
    &&& row.user_id == user_id
    &&& row.status == "paid"@
    &&& row.paid_at matches Some(at) && text_lt(cutoff, at)
}

/// Whether `user_id` has an entry fee that was paid after `cutoff`.
pub open spec fn has_paid_after(rows: Seq<GamePaymentView>, user_id: int, cutoff: Seq<char>)
    -> bool {
    exists|i: int| 0 <= i < rows.len() && is_paid_after(#[trigger] rows[i], user_id, cutoff)
}

/// The first moment of `date`, as the ledger writes times. Date and time
/// are joined by `T`, as in every time that the ledger writes, and on
/// purpose not by a space: no ISO 8601 time of the ledger would sort
/// between bounds written with a space.
pub open spec fn day_start(date: Seq<char>) -> Seq<char> {
    date + "T00:00:00"@
}

/// The last whole second of `date`, as the ledger writes times, joined by
/// `T` for the same reason. The bound has no fraction, so a time within the
/// last second of the day, which is written with one, sorts after it.
pub open spec fn day_end(date: Seq<char>) -> Seq<char> {
    date + "T23:59:59"@
}

/// Whether the text of a time lies within `date`, both ends included.
pub open spec fn on_day(at: Seq<char>, date: Seq<char>) -> bool {
    text_between(at, day_start(date), day_end(date))
}

/// Whether an entry fee was paid on `date`.
pub open spec fn is_paid_on(row: GamePaymentView, date: Seq<char>) -> bool {
    &&& row.status == "paid"@
    &&& row.paid_at matches Some(at) && on_day(at, date)
}

/// How many of the rows from `i` on were paid on `date`.
pub open spec fn count_paid_on_from(rows: Seq<GamePaymentView>, date: Seq<char>, i: int) -> nat
    decreases rows.len() - i,
{
    if i < 0 || i >= rows.len() {
        0
    } else {
        count_paid_on_from(rows, date, i + 1) + if is_paid_on(rows[i], date) {
            1nat
        } else {
            0nat
        }
    }
}

/// A count as the ledger reports it: no more than the largest `i64`.
pub open spec fn reported(count: nat) -> int {
    if count <= i64::MAX {
        count as int
    } else {
        i64::MAX as int
    }
}

/// The scores that compete for `date`: those submitted on that day by known
/// players.
pub open spec fn day_keys(scores: Seq<ScoreView>, users: Seq<UserView>, date: Seq<char>) -> Seq<
    Option<i64>,
> {
    Seq::new(
        scores.len(),
        |i: int|
            if on_day(scores[i].created_at, date) && find_user_id_from(
                users,
                scores[i].user_id,
                0,
            ) is Some {
                Some(scores[i].score as i64)
            } else {
                None
            },
    )
}

/// Whether the score at `p` wins among `keys`: it is the highest, and the
/// earliest of those as high.
pub open spec fn is_winner(keys: Seq<Option<i64>>, p: int) -> bool {
    &&& ranked(keys, p)
    &&& forall|j: int| ranked(keys, j) && j != p ==> outranks(keys, p, j)
}

/// The position of the winning score among `keys`, if any score competes.
pub open spec fn winner(keys: Seq<Option<i64>>) -> Option<int> {
    if exists|p: int| is_winner(keys, p) {
        Some(choose|p: int| is_winner(keys, p))
    } else {
        None
    }
}

/// There is one winner at most.
pub proof fn lemma_winner_unique(keys: Seq<Option<i64>>, p: int, q: int)
    requires
        is_winner(keys, p),
        is_winner(keys, q),
    ensures
        p == q,
{
    if p != q {
        assert(outranks(keys, p, q));
        assert(outranks(keys, q, p));
    }
}

/// How many of the scores from `i` on compete for `date` and are of
/// `user_id`.
pub open spec fn count_day_games_from(
    scores: Seq<ScoreView>,
    keys: Seq<Option<i64>>,
    user_id: int,
    i: int,
) -> nat
    decreases scores.len() - i,
{
    if i < 0 || i >= scores.len() {
        0
    } else {
        count_day_games_from(scores, keys, user_id, i + 1) + if ranked(keys, i)
            && scores[i].user_id == user_id {
            1nat
        } else {
            0nat
        }
    }
}

/// Whether `top` describes the winner of `date`: the player of the winning
/// score, that score, the number of that player's competing scores, and the
/// player's name.
pub open spec fn is_top_scorer(
    top: TopScorer,
    scores: Seq<ScoreView>,
    users: Seq<UserView>,
    date: Seq<char>,
) -> bool {
    let keys = day_keys(scores, users, date);
    &&& winner(keys) matches Some(p) && {
        &&& top.user_id == scores[p].user_id
        &&& top.score == scores[p].score
        &&& top.games_played == reported(count_day_games_from(scores, keys, scores[p].user_id, 0))
        &&& top.username@ == users[find_user_id_from(users, scores[p].user_id, 0)->0].username
    }
}

/// The player who wins `date`, if any score competes.
pub open spec fn day_winner(scores: Seq<ScoreView>, users: Seq<UserView>, date: Seq<char>)
    -> Option<int> {
    match winner(day_keys(scores, users, date)) {
        Some(p) => Some(scores[p].user_id),
        None => None,
    }
}

/// The position of the first prize from `i` on that is the one of `user_id`
/// for `date`.
pub open spec fn find_prize_from(rows: Seq<PrizePayoutView>, user_id: int, date: Seq<char>, i: int)
    -> Option<int>
    decreases rows.len() - i,
{
    if i < 0 || i >= rows.len() {
        None
    } else if is_prize_of(rows[i], user_id, date) {
        Some(i)
    } else {
        find_prize_from(rows, user_id, date, i + 1)
    }
}

/// The position of the first prize from `i` on that is the one of `user_id`
/// for `date` and still open.
pub open spec fn find_open_prize_from(
    rows: Seq<PrizePayoutView>,
    user_id: int,
    date: Seq<char>,
    i: int,
) -> Option<int>
    decreases rows.len() - i,
{
    if i < 0 || i >= rows.len() {
        None
    } else if is_prize_of(rows[i], user_id, date) && rows[i].status == "pending"@ {
        Some(i)
    } else {
        find_open_prize_from(rows, user_id, date, i + 1)
    }
}

/// The position of the first prize from `i` on whose id is `id`.
pub open spec fn find_prize_id_from(rows: Seq<PrizePayoutView>, id: int, i: int) -> Option<int>
    decreases rows.len() - i,
{
    if i < 0 || i >= rows.len() {
        None
    } else if rows[i].id == id {
        Some(i)
    } else {
        find_prize_id_from(rows, id, i + 1)
    }
}

/// The prize that `record_daily_winner` adds to `rows`.
pub open spec fn recorded_prize(
    rows: Seq<PrizePayoutView>,
    user_id: int,
    date: Seq<char>,
    score: int,
    amount_sats: int,
    now: Seq<char>,
) -> PrizePayoutView {
    PrizePayoutView {
        id: next_id(payout_ids(rows)),
        user_id,
        date,
        score,
        amount_sats,
        payment_request: None,
        payment_id: None,
        status: "pending"@,
        created_at: now,
        updated_at: now,
        paid_at: None,
    }
}

/// The prizes after the winner of `date` has been recorded: a new open prize
/// at the end, unless the player already has one for that day.
pub open spec fn prizes_after_record(
    rows: Seq<PrizePayoutView>,
    user_id: int,
    date: Seq<char>,
    score: int,
    amount_sats: int,
    now: Seq<char>,
) -> Seq<PrizePayoutView> {
    if find_prize_from(rows, user_id, date, 0) is Some {
        rows
    } else {
        rows.push(recorded_prize(rows, user_id, date, score, amount_sats, now))
    }
}

/// How many of the prizes from `i` on are the one of `user_id` for `date`.
pub open spec fn count_prizes_from(
    rows: Seq<PrizePayoutView>,
    user_id: int,
    date: Seq<char>,
    i: int,
) -> nat
    decreases rows.len() - i,
{
    if i < 0 || i >= rows.len() {
        0
    } else {
        count_prizes_from(rows, user_id, date, i + 1) + if is_prize_of(rows[i], user_id, date) {
            1nat
        } else {
            0nat
        }
    }
}

/// A prize after the winner's invoice has been attached at `now`.
pub open spec fn invoiced_prize(row: PrizePayoutView, invoice: Seq<char>, now: Seq<char>)
    -> PrizePayoutView {
    PrizePayoutView { payment_request: Some(invoice), updated_at: now, ..row }
}

/// The prizes after `invoice` has been attached to the open prize of
/// `user_id` for `date`.
pub open spec fn prizes_after_invoice(
    rows: Seq<PrizePayoutView>,
    user_id: int,
    date: Seq<char>,
    invoice: Seq<char>,
    now: Seq<char>,
) -> Seq<PrizePayoutView> {
    Seq::new(
        rows.len(),
        |i: int|
            if is_prize_of(rows[i], user_id, date) && rows[i].status == "pending"@ {
                invoiced_prize(rows[i], invoice, now)
            } else {
                rows[i]
            },
    )
}

/// A prize after it has been settled as `status` at `now`, with the
/// provider's id of the payment where there is one.
pub open spec fn settled_prize(
    row: PrizePayoutView,
    status: Seq<char>,
    payment_id: Option<Seq<char>>,
    now: Seq<char>,
) -> PrizePayoutView {
    PrizePayoutView {
        status,
        payment_id,
        updated_at: now,
        paid_at: paid_at_for(status, now),
        ..row
    }
}

/// The prizes after the one with the id `id` has been settled.
pub open spec fn prizes_after_status(
    rows: Seq<PrizePayoutView>,
    id: int,
    status: Seq<char>,
    payment_id: Option<Seq<char>>,
    now: Seq<char>,
) -> Seq<PrizePayoutView> {
    Seq::new(
        rows.len(),
        |i: int|
            if rows[i].id == id {
                settled_prize(rows[i], status, payment_id, now)
            } else {
                rows[i]
            },
    )
}

/// The time that a settlement writes on a prize: the time given, or, where
/// the clock could not be read, the time that the prize already bears as
/// its last change.
pub open spec fn settling_time(row: PrizePayoutView, now: Option<Seq<char>>) -> Seq<char> {
    match now {
        Some(at) => at,
        None => row.updated_at,
    }
}

/// The prizes after the one with the id `id` has been settled, at `now` or
/// without a reading of the clock.
pub open spec fn prizes_settled(
    rows: Seq<PrizePayoutView>,
    id: int,
    status: Seq<char>,
    payment_id: Option<Seq<char>>,
    now: Option<Seq<char>>,
) -> Seq<PrizePayoutView> {
    Seq::new(
        rows.len(),
        |i: int|
            if rows[i].id == id {
                settled_prize(rows[i], status, payment_id, settling_time(rows[i], now))
            } else {
                rows[i]
            },
    )
}

/// A prize added at the end of a table that held none of the player for the
/// day is the one that a search then finds, and it is open.
pub proof fn lemma_recorded_is_last(
    rows: Seq<PrizePayoutView>,
    row: PrizePayoutView,
    user_id: int,
    date: Seq<char>,
    i: int,
)
    requires
        0 <= i <= rows.len(),
        find_prize_from(rows, user_id, date, i) is None,
        is_prize_of(row, user_id, date),
    ensures
        find_prize_from(rows.push(row), user_id, date, i) == Some(rows.len() as int),
        row.status == "pending"@ ==> find_open_prize_from(rows.push(row), user_id, date, i)
            == Some(rows.len() as int),
    decreases rows.len() - i,
{
    if i < rows.len() {
        assert(rows.push(row)[i] == rows[i]);
        lemma_recorded_is_last(rows, row, user_id, date, i + 1);
    }
}

/// Recording the same winner again changes nothing, whatever score, amount
/// and time the second call brings: called one after the other, the second
/// call finds the prize that the first has recorded, and leaves it as it
/// is.
pub proof fn lemma_record_twice(
    rows: Seq<PrizePayoutView>,
    user_id: int,
    date: Seq<char>,
    score: int,
    amount_sats: int,
    now: Seq<char>,
    score2: int,
    amount2: int,
    later: Seq<char>,
)
    ensures
        prizes_after_record(
            prizes_after_record(rows, user_id, date, score, amount_sats, now),
            user_id,
            date,
            score2,
            amount2,
            later,
        ) == prizes_after_record(rows, user_id, date, score, amount_sats, now),
        find_prize_from(rows, user_id, date, 0) is None ==> find_prize_from(
            prizes_after_record(rows, user_id, date, score, amount_sats, now),
            user_id,
            date,
            0,
        ) == Some(rows.len() as int) && prizes_after_record(
            rows,
            user_id,
            date,
            score,
            amount_sats,
            now,
        )[rows.len() as int] == recorded_prize(rows, user_id, date, score, amount_sats, now),
{
    let once = prizes_after_record(rows, user_id, date, score, amount_sats, now);
    if find_prize_from(rows, user_id, date, 0) is None {
        lemma_recorded_is_last(
            rows,
            recorded_prize(rows, user_id, date, score, amount_sats, now),
            user_id,
            date,
            0,
        );
        lemma_find_prize_pushed(
            rows,
            recorded_prize(rows, user_id, date, score, amount_sats, now),
            user_id,
            date,
            0,
        );
    }
}

/// Once the winner of a day has been recorded, the ledger holds a prize of
/// that player for that day.
pub proof fn lemma_recorded_is_found(
    rows: Seq<PrizePayoutView>,
    user_id: int,
    date: Seq<char>,
    score: int,
    amount_sats: int,
    now: Seq<char>,
)
    ensures
        find_prize_from(
            prizes_after_record(rows, user_id, date, score, amount_sats, now),
            user_id,
            date,
            0,
        ) is Some,
{
    if find_prize_from(rows, user_id, date, 0) is None {
        lemma_find_prize_pushed(
            rows,
            recorded_prize(rows, user_id, date, score, amount_sats, now),
            user_id,
            date,
            0,
        );
    }
}

/// A prize added at the end is found when no earlier row is.
proof fn lemma_find_prize_pushed(
    rows: Seq<PrizePayoutView>,
    row: PrizePayoutView,
    user_id: int,
    date: Seq<char>,
    i: int,
)
    requires
        0 <= i <= rows.len(),
        is_prize_of(row, user_id, date),
    ensures
        find_prize_from(rows.push(row), user_id, date, i) is Some,
    decreases rows.len() - i,
{
    if i < rows.len() {
        if !is_prize_of(rows.push(row)[i], user_id, date) {
            lemma_find_prize_pushed(rows, row, user_id, date, i + 1);
        }
    }
}

/// Where no player has two prizes for a day, a search finds nothing beyond
/// a row that is the prize looked for, and none before one that is found.
proof fn lemma_count_prizes(rows: Seq<PrizePayoutView>, user_id: int, date: Seq<char>, i: int)
    requires
        one_prize_each(rows),
        0 <= i <= rows.len(),
    ensures
        count_prizes_from(rows, user_id, date, i) == if find_prize_from(rows, user_id, date, i)
            is Some {
            1nat
        } else {
            0nat
        },
        find_prize_from(rows, user_id, date, i) matches Some(k) ==> i <= k < rows.len()
            && is_prize_of(rows[k], user_id, date),
        find_prize_from(rows, user_id, date, i) is None ==> forall|k: int|
            i <= k < rows.len() ==> !is_prize_of(#[trigger] rows[k], user_id, date),
    decreases rows.len() - i,
{
    if i < rows.len() {
        lemma_count_prizes(rows, user_id, date, i + 1);
        if is_prize_of(rows[i], user_id, date) {
            if let Some(k) = find_prize_from(rows, user_id, date, i + 1) {
                assert(rows[i].user_id == rows[k].user_id && rows[i].date == rows[k].date);
                assert(false);
            }
        }
    }
}

/// After the winner of a day has been recorded, once or more often, the
/// ledger holds exactly one prize of that player for that day.
pub proof fn lemma_one_prize_after_record(
    rows: Seq<PrizePayoutView>,
    user_id: int,
    date: Seq<char>,
    score: int,
    amount_sats: int,
    now: Seq<char>,
)
    requires
        one_prize_each(rows),
    ensures
        one_prize_each(prizes_after_record(rows, user_id, date, score, amount_sats, now)),
        count_prizes_from(
            prizes_after_record(rows, user_id, date, score, amount_sats, now),
            user_id,
            date,
            0,
        ) == 1,
{
    let after = prizes_after_record(rows, user_id, date, score, amount_sats, now);
    lemma_count_prizes(rows, user_id, date, 0);
    if find_prize_from(rows, user_id, date, 0) is None {
        let row = recorded_prize(rows, user_id, date, score, amount_sats, now);
        assert forall|i: int, j: int| 0 <= i < j < after.len() implies !(
        #[trigger] after[i].user_id == #[trigger] after[j].user_id && after[i].date
            == after[j].date) by {
            if j < rows.len() {
                assert(!(rows[i].user_id == rows[j].user_id && rows[i].date == rows[j].date));
            } else {
                assert(!is_prize_of(rows[i], user_id, date));
            }
        }
        lemma_find_prize_pushed(rows, row, user_id, date, 0);
    }
    lemma_count_prizes(after, user_id, date, 0);
}

/// Giving a payment the same status again changes nothing, whenever the
/// second call comes.
pub proof fn lemma_status_twice(
    rows: Seq<GamePaymentView>,
    payment_id: Seq<char>,
    status: Seq<char>,
    now: Seq<char>,
    later: Seq<char>,
)
    ensures
        payments_after_status(
            payments_after_status(rows, payment_id, status, now),
            payment_id,
            status,
            later,
        ) == payments_after_status(rows, payment_id, status, now),
        find_payment_from(
            payments_after_status(
                payments_after_status(rows, payment_id, status, now),
                payment_id,
                status,
                later,
            ),
            payment_id,
            0,
        ) == find_payment_from(payments_after_status(rows, payment_id, status, now), payment_id, 0),
{
    let once = payments_after_status(rows, payment_id, status, now);
    let twice = payments_after_status(once, payment_id, status, later);
    assert(twice =~= once);
}

/// A payment that is settled stays as it is: no status update changes a row
/// that is no longer pending, whatever status it is given and whenever.
pub proof fn lemma_settled_stays(
    rows: Seq<GamePaymentView>,
    payment_id: Seq<char>,
    status: Seq<char>,
    now: Seq<char>,
    i: int,
)
    requires
        0 <= i < rows.len(),
        rows[i].status != "pending"@,
    ensures
        payments_after_status(rows, payment_id, status, now)[i] == rows[i],
{
}

/// "paid" is another status than "pending".
pub proof fn lemma_paid_is_not_pending()
    ensures
        "paid"@ != "pending"@,
{
    reveal_strlit("paid");
    reveal_strlit("pending");
    assert("paid"@.len() == 4);
    assert("pending"@.len() == 7);
}

/// A player is admitted right after paying: once a pending entry fee of
/// `user_id` has moved to "paid" at `now`, the player has a payment after
/// every cutoff that sorts before `now`.
pub proof fn lemma_admitted_after_paying(
    rows: Seq<GamePaymentView>,
    i: int,
    now: Seq<char>,
    cutoff: Seq<char>,
)
    requires
        0 <= i < rows.len(),
        rows[i].status == "pending"@,
        text_lt(cutoff, now),
    ensures
        has_paid_after(
            payments_after_status(rows, rows[i].payment_id, "paid"@, now),
            rows[i].user_id,
            cutoff,
        ),
{
    lemma_paid_is_not_pending();
    let after = payments_after_status(rows, rows[i].payment_id, "paid"@, now);
    assert(is_paid_after(after[i], rows[i].user_id, cutoff));
}

/// A payment admits no longer once the cutoff has reached its time: a
/// player whose paid entry fees all sort at or before `cutoff` has none
/// after it.
pub proof fn lemma_expired(rows: Seq<GamePaymentView>, user_id: int, cutoff: Seq<char>)
    requires
        forall|i: int|
            0 <= i < rows.len() && (#[trigger] rows[i]).user_id == user_id && rows[i].status
                == "paid"@ && rows[i].paid_at is Some ==> text_le(rows[i].paid_at->0, cutoff),
    ensures
        !has_paid_after(rows, user_id, cutoff),
{
}

/// Whether the texts of times sort as the times do: of two instants the
/// earlier one is written as the text that sorts first. This is a law of
/// the way in which times are written, which this library takes from
/// outside; it is a premise here, not something proved.
pub open spec fn texts_sort_as_times() -> bool {
    forall|a: int, b: int|
        #![trigger iso8601_text(a), iso8601_text(b)]
        representable(a) && representable(b) && a < b ==> text_lt(
            iso8601_text(a),
            iso8601_text(b),
        )
}

/// Where texts sort as times do, a payment admits for an hour: once a
/// pending entry fee has been marked paid at the instant `paid`, its player
/// has a valid payment at every instant `now` from `paid` until an hour
/// later.
pub proof fn lemma_valid_for_an_hour(rows: Seq<GamePaymentView>, i: int, paid: int, now: int)
    requires
        texts_sort_as_times(),
        0 <= i < rows.len(),
        rows[i].status == "pending"@,
        representable(paid),
        representable(now - 3600 * 1_000_000_000),
        paid <= now < paid + 3600 * 1_000_000_000,
    ensures
        has_paid_after(
            payments_after_status(rows, rows[i].payment_id, "paid"@, iso8601_text(paid)),
            rows[i].user_id,
            iso8601_text(now - 3600 * 1_000_000_000),
        ),
{
    let cutoff = now - 3600 * 1_000_000_000;
    assert(text_lt(iso8601_text(cutoff), iso8601_text(paid)));
    lemma_admitted_after_paying(rows, i, iso8601_text(paid), iso8601_text(cutoff));
}

/// Where texts sort as times do, a payment admits no longer than an hour: a
/// player whose paid entry fees were all paid an hour or more before `now`
/// has no valid payment at `now`, whatever pending and failed entry fees
/// the player has.
pub proof fn lemma_invalid_after_an_hour(rows: Seq<GamePaymentView>, user_id: int, now: int)
    requires
        texts_sort_as_times(),
        representable(now - 3600 * 1_000_000_000),
        forall|i: int|
            0 <= i < rows.len() && (#[trigger] rows[i]).user_id == user_id && rows[i].status
                == "paid"@ && rows[i].paid_at is Some ==> exists|at: int|
                representable(at) && at <= now - 3600 * 1_000_000_000 && rows[i].paid_at == Some(
                    #[trigger] iso8601_text(at),
                ),
    ensures
        !has_paid_after(rows, user_id, iso8601_text(now - 3600 * 1_000_000_000)),
{
    let cutoff = now - 3600 * 1_000_000_000;
    assert forall|i: int|
        0 <= i < rows.len() && (#[trigger] rows[i]).user_id == user_id && rows[i].status
            == "paid"@ && rows[i].paid_at is Some implies text_le(
        rows[i].paid_at->0,
        iso8601_text(cutoff),
    ) by {
        let at = choose|at: int|
            representable(at) && at <= cutoff && rows[i].paid_at == Some(
                #[trigger] iso8601_text(at),
            );
        if at == cutoff {
            lemma_text_le_refl(iso8601_text(cutoff));
        } else {
            assert(text_lt(iso8601_text(at), iso8601_text(cutoff)));
            lemma_text_le_total(iso8601_text(at), iso8601_text(cutoff));
        }
    }
    lemma_expired(rows, user_id, iso8601_text(cutoff));
}

/// What has expired stays expired: a player without a payment after
/// `cutoff` has none after any later cutoff.
pub proof fn lemma_expiry_is_final(
    rows: Seq<GamePaymentView>,
    user_id: int,
    cutoff: Seq<char>,
    later: Seq<char>,
)
    requires
        text_le(cutoff, later),
        !has_paid_after(rows, user_id, cutoff),
    ensures
        !has_paid_after(rows, user_id, later),
{
    if has_paid_after(rows, user_id, later) {
        let i = choose|i: int|
            0 <= i < rows.len() && is_paid_after(#[trigger] rows[i], user_id, later);
        let at = rows[i].paid_at->0;
        if text_le(at, cutoff) {
            lemma_text_le_trans(at, cutoff, later);
        }
        assert(is_paid_after(rows[i], user_id, cutoff));
    }
}


/// The payment ledger: entry fees and prizes, each in the order in which its
/// rows were added.
pub struct PaymentStore {
    payments: Vec<GamePayment>,
    payouts: Vec<PrizePayout>,
}

impl View for PaymentStore {
    type V = LedgerView;

    closed spec fn view(&self) -> LedgerView {
        LedgerView {
            payments: payment_views(self.payments@),
            payouts: payout_views(self.payouts@),
        }
    }
}

fn payment_id_list(rows: &Vec<GamePayment>) -> (ids: Vec<i64>)
    ensures
        wide(ids@) == payment_ids(payment_views(rows@)),
{
    let mut ids: Vec<i64> = Vec::new();
    let mut i: usize = 0;
    while i < rows.len()
        invariant
            i <= rows.len(),
            ids.len() == i,
            forall|j: int| 0 <= j < i ==> ids@[j] == rows@[j].id,
        decreases rows.len() - i,
    {
        ids.push(rows[i].id);
        i += 1;
    }
    assert(wide(ids@) =~= payment_ids(payment_views(rows@)));
    ids
}

fn payout_id_list(rows: &Vec<PrizePayout>) -> (ids: Vec<i64>)
    ensures
        wide(ids@) == payout_ids(payout_views(rows@)),
{
    let mut ids: Vec<i64> = Vec::new();
    let mut i: usize = 0;
    while i < rows.len()
        invariant
            i <= rows.len(),
            ids.len() == i,
            forall|j: int| 0 <= j < i ==> ids@[j] == rows@[j].id,
        decreases rows.len() - i,
    {
        ids.push(rows[i].id);
        i += 1;
    }
    assert(wide(ids@) =~= payout_ids(payout_views(rows@)));
    ids
}

/// Whether no player has two prizes for one day among `rows`.
fn check_one_prize_each(rows: &Vec<PrizePayout>) -> (ok: bool)
    ensures
        ok == one_prize_each(payout_views(rows@)),
{
    let ghost views = payout_views(rows@);
    let mut j: usize = 0;
    while j < rows.len()
        invariant
            j <= rows.len(),
            views == payout_views(rows@),
            forall|a: int, b: int|
                0 <= a < b < j ==> !(#[trigger] views[a].user_id == #[trigger] views[b].user_id
                    && views[a].date == views[b].date),
        decreases rows.len() - j,
    {
        let mut i: usize = 0;
        while i < j
            invariant
                i <= j,
                j < rows.len(),
                views == payout_views(rows@),
                forall|a: int|
                    0 <= a < i ==> !(#[trigger] views[a].user_id == views[j as int].user_id
                        && views[a].date == views[j as int].date),
            decreases j - i,
        {
            if rows[i].user_id == rows[j].user_id && str_eq(
                rows[i].date.as_str(),
                rows[j].date.as_str(),
            ) {
                assert(views[i as int].user_id == views[j as int].user_id && views[i as int].date
                    == views[j as int].date);
                return false;
            }
            i += 1;
        }
        j += 1;
    }
    true
}

/// The detail of the error for a clock that cannot be turned back an hour.
pub open spec fn cutoff_out_of_range() -> Seq<char> {
    "Validity window is out of range"@
}

impl PaymentStore {
    #[verifier::type_invariant]
    spec fn in_order(self) -> bool {
        &&& ids_in_order(payment_ids(payment_views(self.payments@)))
        &&& ids_in_order(payout_ids(payout_views(self.payouts@)))
        &&& one_prize_each(payout_views(self.payouts@))
    }

    /// An empty ledger.
    pub fn new() -> (store: Self)
        ensures
            store@ == LedgerView::empty(),
    {
        let store = PaymentStore { payments: Vec::new(), payouts: Vec::new() };
        assert(store@.payments =~= Seq::<GamePaymentView>::empty());
        assert(store@.payouts =~= Seq::<PrizePayoutView>::empty());
        store
    }

    /// A ledger that holds the given rows, where they are in order.
    pub fn restore(payments: Vec<GamePayment>, payouts: Vec<PrizePayout>) -> (r: Option<Self>)
        ensures
            r is Some <==> (LedgerView {
                payments: payment_views(payments@),
                payouts: payout_views(payouts@),
            }).in_order(),
            r matches Some(store) ==> store@ == (LedgerView {
                payments: payment_views(payments@),
                payouts: payout_views(payouts@),
            }),
    {
        let a = payment_id_list(&payments);
        let b = payout_id_list(&payouts);
        if check_ids(&a) && check_ids(&b) && check_one_prize_each(&payouts) {
            Some(PaymentStore { payments, payouts })
        } else {
            None
        }
    }

    /// The ledger is in order.
    pub fn check(&self)
        ensures
            self@.in_order(),
    {
        proof {
            use_type_invariant(self);
        }
    }

    /// A copy of every entry fee, in table order.
    pub fn payments(&self) -> (copy: Vec<GamePayment>)
        ensures
            payment_views(copy@) == self@.payments,
    {
        let mut copy: Vec<GamePayment> = Vec::new();
        let mut i: usize = 0;
        while i < self.payments.len()
            invariant
                i <= self.payments.len(),
                copy.len() == i,
                forall|j: int| 0 <= j < i ==> copy@[j]@ == self.payments@[j]@,
            decreases self.payments.len() - i,
        {
            copy.push(self.payments[i].clone());
            i += 1;
        }
        assert(payment_views(copy@) =~= self@.payments);
        copy
    }

    /// A copy of every prize, in table order.
    pub fn payouts(&self) -> (copy: Vec<PrizePayout>)
        ensures
            payout_views(copy@) == self@.payouts,
    {
        let mut copy: Vec<PrizePayout> = Vec::new();
        let mut i: usize = 0;
        while i < self.payouts.len()
            invariant
                i <= self.payouts.len(),
                copy.len() == i,
                forall|j: int| 0 <= j < i ==> copy@[j]@ == self.payouts@[j]@,
            decreases self.payouts.len() - i,
        {
            copy.push(self.payouts[i].clone());
            i += 1;
        }
        assert(payout_views(copy@) =~= self@.payouts);
        copy
    }

    /// Whether the ledger answers. One held in memory always does.
    pub fn ping(&self) -> (r: Result<(), Error>)
        ensures
            r is Ok,
    {
        Ok(())
    }

    /// Opens an entry fee for `user_id` at `now`: a new row, pending. The
    /// table is full once an id has reached the largest.
    pub fn create_game_payment_at(
        &mut self,
        user_id: i64,
        payment_id: &str,
        invoice: &str,
        amount_sats: i64,
        now: &Instant,
    ) -> (r: Result<GamePayment, Error>)
        ensures
            next_id(payment_ids(old(self)@.payments)) <= i64::MAX <==> r is Ok,
            match r {
                Ok(row) => {
                    &&& row@ == opened_payment(
                        old(self)@.payments,
                        user_id as int,
                        payment_id@,
                        invoice@,
                        amount_sats as int,
                        now.text(),
                    )
                    &&& final(self)@ == (LedgerView {
                        payments: old(self)@.payments.push(row@),
                        ..old(self)@
                    })
                },
                Err(e) => e is Database && final(self)@ == old(self)@,
            },
    {
        proof {
            use_type_invariant(&*self);
        }
        let n = self.payments.len();
        let last: i64 = if n == 0 {
            0
        } else {
            self.payments[n - 1].id
        };
        let id = match following_id(last) {
            Some(id) => id,
            None => {
                return Err(Error::Database(String::from_str("database or disk is full")));
            },
        };
        let stamp = now.to_iso8601();
        let row = GamePayment {
            id,
            user_id,
            payment_id: String::from_str(payment_id),
            invoice: String::from_str(invoice),
            amount_sats,
            status: String::from_str("pending"),
            created_at: stamp.clone(),
            updated_at: stamp,
            paid_at: None,
        };
        let copy = row.clone();
        let ghost before = payment_views(self.payments@);
        let mut rows: Vec<GamePayment> = Vec::new();
        core::mem::swap(&mut self.payments, &mut rows);
        rows.push(row);
        proof {
            let after = payment_views(rows@);
            assert(after =~= before.push(copy@));
            assert(payment_ids(after) =~= payment_ids(before).push(next_id(payment_ids(before))));
            lemma_push_in_order(payment_ids(before));
        }
        self.payments = rows;
        Ok(copy)
    }

    /// Opens an entry fee for `user_id` now.
    pub fn create_game_payment(
        &mut self,
        user_id: i64,
        payment_id: &str,
        invoice: &str,
        amount_sats: i64,
    ) -> (r: Result<GamePayment, Error>)
        ensures
            match r {
                Ok(row) => {
                    &&& exists|at: int|
                        representable(at) && row@ == opened_payment(
                            old(self)@.payments,
                            user_id as int,
                            payment_id@,
                            invoice@,
                            amount_sats as int,
                            #[trigger] iso8601_text(at),
                        )
                    &&& final(self)@ == (LedgerView {
                        payments: old(self)@.payments.push(row@),
                        ..old(self)@
                    })
                },
                Err(e) => {
                    &&& final(self)@ == old(self)@
                    &&& clock_stopped(e) || (e is Database && next_id(
                        payment_ids(old(self)@.payments),
                    ) > i64::MAX)
                },
            },
    {
        let now = match current_time() {
            Ok(now) => now,
            Err(e) => {
                return Err(e);
            },
        };
        let r = self.create_game_payment_at(user_id, payment_id, invoice, amount_sats, &now);
        proof {
            assert(now.text() == iso8601_text(now.nanos()));
        }
        r
    }

    fn position_of_payment(&self, payment_id: &str) -> (r: Option<usize>)
        ensures
            match find_payment_from(self@.payments, payment_id@, 0) {
                Some(k) => r == Some(k as usize) && 0 <= k < self@.payments.len()
                    && self@.payments[k].payment_id == payment_id@ && k < self.payments.len(),
                None => r is None,
            },
    {
        let mut i: usize = 0;
        while i < self.payments.len()
            invariant
                i <= self.payments.len(),
                find_payment_from(self@.payments, payment_id@, 0) == find_payment_from(
                    self@.payments,
                    payment_id@,
                    i as int,
                ),
                self@.payments == payment_views(self.payments@),
            decreases self.payments.len() - i,
        {
            if str_eq(self.payments[i].payment_id.as_str(), payment_id) {
                return Some(i);
            }
            i += 1;
        }
        None
    }

    /// The first entry fee that the provider knows as `payment_id`.
    pub fn get_payment_by_id(&self, payment_id: &str) -> (r: Result<Option<GamePayment>, Error>)
        ensures
            match find_payment_from(self@.payments, payment_id@, 0) {
                Some(k) => r matches Ok(Some(row)) && row@ == self@.payments[k]
                    && row.payment_id@ == payment_id@,
                None => r matches Ok(None),
            },
    {
        match self.position_of_payment(payment_id) {
            Some(k) => Ok(Some(self.payments[k].clone())),
            None => Ok(None),
        }
    }

    /// Gives the entry fees known as `payment_id` the status `status` at
    /// `now`, and returns the first of them as it then stands, or nothing
    /// where the ledger knows no such payment. Only a payment that is still
    /// pending moves, and only to another status: its time of payment is set
    /// for "paid". A payment that is settled is left as it is, so that no call
    /// turns it back and repeating a call changes nothing.
    pub fn update_payment_status_at(&mut self, payment_id: &str, status: &str, now: &Instant) -> (r:
        Result<Option<GamePayment>, Error>)
        ensures
            final(self)@ == (LedgerView {
                payments: payments_after_status(
                    old(self)@.payments,
                    payment_id@,
                    status@,
                    now.text(),
                ),
                ..old(self)@
            }),
            match find_payment_from(old(self)@.payments, payment_id@, 0) {
                Some(k) => r matches Ok(Some(row)) && row@ == final(self)@.payments[k],
                None => r matches Ok(None),
            },
    {
        proof {
            use_type_invariant(&*self);
        }
        let hit = self.position_of_payment(payment_id);
        let stamp = now.to_iso8601();
        let paid = str_eq(status, "paid");
        let settles = !str_eq(status, "pending");
        let ghost before = payment_views(self.payments@);
        let ghost goal = payments_after_status(before, payment_id@, status@, now.text());
        let mut old_rows: Vec<GamePayment> = Vec::new();
        core::mem::swap(&mut self.payments, &mut old_rows);
        let mut rows: Vec<GamePayment> = Vec::new();
        let mut i: usize = 0;
        while i < old_rows.len()
            invariant
                i <= old_rows.len(),
                rows.len() == i,
                before == payment_views(old_rows@),
                goal == payments_after_status(before, payment_id@, status@, now.text()),
                stamp@ == now.text(),
                paid == (status@ == "paid"@),
                settles == (status@ != "pending"@),
                forall|j: int| 0 <= j < i ==> #[trigger] rows@[j]@ == goal[j],
            decreases old_rows.len() - i,
        {
            let row = &old_rows[i];
            if settles && str_eq(row.payment_id.as_str(), payment_id) && str_eq(
                row.status.as_str(),
                "pending",
            ) {
                rows.push(
                    GamePayment {
                        id: row.id,
                        user_id: row.user_id,
                        payment_id: row.payment_id.clone(),
                        invoice: row.invoice.clone(),
                        amount_sats: row.amount_sats,
                        status: String::from_str(status),
                        created_at: row.created_at.clone(),
                        updated_at: stamp.clone(),
                        paid_at: if paid {
                            Some(stamp.clone())
                        } else {
                            None
                        },
                    },
                );
            } else {
                rows.push(row.clone());
            }
            i += 1;
        }
        proof {
            let after = payment_views(rows@);
            assert(after =~= goal);
            assert(payment_ids(after) =~= payment_ids(before));
        }
        let found = match hit {
            Some(k) => Some(rows[k].clone()),
            None => None,
        };
        self.payments = rows;
        Ok(found)
    }

    /// Gives the entry fees known as `payment_id` the status `status` now.
    pub fn update_payment_status(&mut self, payment_id: &str, status: &str) -> (r: Result<
        Option<GamePayment>,
        Error,
    >)
        ensures
            final(self)@.payouts == old(self)@.payouts,
            match r {
                Ok(found) => {
                    &&& exists|at: int|
                        representable(at) && final(self)@.payments == payments_after_status(
                            old(self)@.payments,
                            payment_id@,
                            status@,
                            #[trigger] iso8601_text(at),
                        )
                    &&& match find_payment_from(old(self)@.payments, payment_id@, 0) {
                        Some(k) => found matches Some(row) && row@ == final(self)@.payments[k],
                        None => found is None,
                    }
                },
                Err(e) => final(self)@ == old(self)@ && clock_stopped(e),
            },
    {
        let now = match current_time() {
            Ok(now) => now,
            Err(e) => {
                return Err(e);
            },
        };
        let r = self.update_payment_status_at(payment_id, status, &now);
        proof {
            assert(now.text() == iso8601_text(now.nanos()));
        }
        r
    }

    /// The open entry fee of `user_id` that was created last.
    pub fn get_pending_payment_for_user(&self, user_id: i64) -> (r: Result<
        Option<GamePayment>,
        Error,
    >)
        ensures
            match latest_pending_upto(
                self@.payments,
                user_id as int,
                self@.payments.len() as int,
            ) {
                Some(k) => r matches Ok(Some(row)) && 0 <= k < self@.payments.len() && row@
                    == self@.payments[k] && is_pending_of(row@, user_id as int),
                None => r matches Ok(None),
            },
    {
        let mut best: Option<usize> = None;
        let mut i: usize = 0;
        while i < self.payments.len()
            invariant
                i <= self.payments.len(),
                self@.payments == payment_views(self.payments@),
                match latest_pending_upto(self@.payments, user_id as int, i as int) {
                    Some(k) => best == Some(k as usize) && 0 <= k < i && is_pending_of(
                        self@.payments[k],
                        user_id as int,
                    ),
                    None => best is None,
                },
            decreases self.payments.len() - i,
        {
            let row = &self.payments[i];
            if row.user_id == user_id && str_eq(row.status.as_str(), "pending") {
                let newer = match best {
                    Some(k) => str_le(
                        self.payments[k].created_at.as_str(),
                        row.created_at.as_str(),
                    ),
                    None => true,
                };
                if newer {
                    best = Some(i);
                }
            }
            i += 1;
        }
        match best {
            Some(k) => Ok(Some(self.payments[k].clone())),
            None => Ok(None),
        }
    }

    /// Whether `user_id` has an entry fee that was paid after `cutoff`, in
    /// the order of the texts.
    pub fn has_valid_payment_since(&self, user_id: i64, cutoff: &str) -> (valid: bool)
        ensures
            valid == has_paid_after(self@.payments, user_id as int, cutoff@),
    {
        let mut i: usize = 0;
        while i < self.payments.len()
            invariant
                i <= self.payments.len(),
                self@.payments == payment_views(self.payments@),
                forall|j: int|
                    0 <= j < i ==> !is_paid_after(
                        #[trigger] self@.payments[j],
                        user_id as int,
                        cutoff@,
                    ),
            decreases self.payments.len() - i,
        {
            let row = &self.payments[i];
            if row.user_id == user_id && str_eq(row.status.as_str(), "paid") {
                let after = match &row.paid_at {
                    Some(at) => str_lt(cutoff, at.as_str()),
                    None => false,
                };
                if after {
                    assert(is_paid_after(self@.payments[i as int], user_id as int, cutoff@));
                    return true;
                }
            }
            i += 1;
        }
        false
    }

    /// Whether `user_id` has an entry fee that was paid within the hour
    /// before `now`. An hour before `now` must be a time that can be written.
    pub fn has_valid_payment_at(&self, user_id: i64, now: &Instant) -> (r: Result<bool, Error>)
        ensures
            match r {
                Ok(valid) => {
                    &&& representable(now.nanos() - 3600 * 1_000_000_000)
                    &&& valid == has_paid_after(
                        self@.payments,
                        user_id as int,
                        iso8601_text(now.nanos() - 3600 * 1_000_000_000),
                    )
                },
                Err(e) => {
                    &&& !representable(now.nanos() - 3600 * 1_000_000_000)
                    &&& e is InvalidInput && e.detail() == cutoff_out_of_range()
                },
            },
    {
        match now.shifted(-VALIDITY_SECONDS) {
            Some(cutoff) => {
                let text = cutoff.to_iso8601();
                Ok(self.has_valid_payment_since(user_id, text.as_str()))
            },
            None => Err(Error::InvalidInput(String::from_str("Validity window is out of range"))),
        }
    }

    /// Whether `user_id` has an entry fee that was paid within the last hour.
    pub fn has_valid_payment(&self, user_id: i64) -> (r: Result<bool, Error>)
        ensures
            match r {
                Ok(valid) => exists|at: int|
                    #![trigger iso8601_text(at - 3600 * 1_000_000_000)]
                    {
                        &&& representable(at)
                        &&& representable(at - 3600 * 1_000_000_000)
                        &&& valid == has_paid_after(
                            self@.payments,
                            user_id as int,
                            iso8601_text(at - 3600 * 1_000_000_000),
                        )
                    },
                Err(e) => clock_stopped(e) || (e is InvalidInput && e.detail()
                    == cutoff_out_of_range()),
            },
    {
        let now = match current_time() {
            Ok(now) => now,
            Err(e) => {
                return Err(e);
            },
        };
        self.has_valid_payment_at(user_id, &now)
    }

    /// How many entry fees were paid on `date`: those whose time of payment,
    /// as text, lies between the first moment and the last whole second of
    /// that day.
    pub fn count_games_for_date(&self, date: &str) -> (r: Result<i64, Error>)
        ensures
            r matches Ok(count) && count == reported(
                count_paid_on_from(self@.payments, date@, 0),
            ),
    {
        let lo = concat2(date, "T00:00:00");
        let hi = concat2(date, "T23:59:59");
        let mut count: i64 = 0;
        let ghost mut seen: nat = 0;
        let mut i: usize = 0;
        while i < self.payments.len()
            invariant
                i <= self.payments.len(),
                self@.payments == payment_views(self.payments@),
                lo@ == day_start(date@),
                hi@ == day_end(date@),
                count_paid_on_from(self@.payments, date@, 0) == seen + count_paid_on_from(
                    self@.payments,
                    date@,
                    i as int,
                ),
                count == reported(seen),
            decreases self.payments.len() - i,
        {
            let row = &self.payments[i];
            let hit = str_eq(row.status.as_str(), "paid") && match &row.paid_at {
                Some(at) => str_le(lo.as_str(), at.as_str()) && str_le(at.as_str(), hi.as_str()),
                None => false,
            };
            if hit {
                proof {
                    seen = seen + 1;
                }
                if count < i64::MAX {
                    count += 1;
                }
            }
            i += 1;
        }
        Ok(count)
    }

    /// The winner of `date`: the player of the highest score submitted that
    /// day by a known player, and of the earliest such score where several
    /// are as high; with that score, the number of scores that the player
    /// submitted that day, and the player's name.
    pub fn get_top_scorer_for_date(&self, games: &GameStore, users: &UserStore, date: &str) -> (r:
        Result<Option<TopScorer>, Error>)
        ensures
            match winner(day_keys(games@.scores, users@, date@)) {
                Some(_) => r matches Ok(Some(top)) && is_top_scorer(
                    top,
                    games@.scores,
                    users@,
                    date@,
                ),
                None => r matches Ok(None),
            },
    {
        let scores = games.score_rows();
        let lo = concat2(date, "T00:00:00");
        let hi = concat2(date, "T23:59:59");
        let ghost all = games@.scores;
        let ghost keys_spec = day_keys(all, users@, date@);
        let mut keys: Vec<Option<i64>> = Vec::new();
        let mut i: usize = 0;
        while i < scores.len()
            invariant
                i <= scores.len(),
                keys.len() == i,
                all == crate::domain::games::store::score_views(scores@),
                lo@ == day_start(date@),
                hi@ == day_end(date@),
                keys_spec == day_keys(all, users@, date@),
                forall|j: int| 0 <= j < i ==> keys@[j] == keys_spec[j],
            decreases scores.len() - i,
        {
            let row = &scores[i];
            let at = row.created_at.as_str();
            if str_le(lo.as_str(), at) && str_le(at, hi.as_str()) && users.knows(row.user_id) {
                keys.push(Some(row.score));
            } else {
                keys.push(None);
            }
            i += 1;
        }
        assert(keys@ =~= keys_spec);
        let picks = rank(&keys, 1);
        let ghost chosen = positions(picks@);
        if picks.len() == 0 {
            proof {
                if exists|p: int| is_winner(keys@, p) {
                    let p = choose|p: int| is_winner(keys@, p);
                    assert(ranked(keys@, p));
                    assert(chosen.contains(p));
                }
            }
            return Ok(None);
        }
        let best = picks[0];
        proof {
            assert(chosen[0] == best);
            assert(ranked(keys@, chosen[0]));
            assert forall|j: int| ranked(keys@, j) && j != best implies outranks(
                keys@,
                best as int,
                j,
            ) by {
                if chosen.contains(j) {
                    let k = choose|k: int| 0 <= k < chosen.len() && chosen[k] == j;
                    assert(k == 0);
                }
                assert(outranks(keys@, chosen[0], j));
            }
            assert(is_winner(keys@, best as int));
            lemma_winner_unique(keys@, best as int, choose|p: int| is_winner(keys@, p));
        }
        let winner_id = scores[best].user_id;
        let mut played: i64 = 0;
        let ghost mut seen: nat = 0;
        let mut j: usize = 0;
        while j < scores.len()
            invariant
                j <= scores.len(),
                keys.len() == scores.len(),
                all == crate::domain::games::store::score_views(scores@),
                count_day_games_from(all, keys@, winner_id as int, 0) == seen
                    + count_day_games_from(all, keys@, winner_id as int, j as int),
                played == reported(seen),
            decreases scores.len() - j,
        {
            if keys[j].is_some() && scores[j].user_id == winner_id {
                proof {
                    seen = seen + 1;
                }
                if played < i64::MAX {
                    played += 1;
                }
            }
            j += 1;
        }
        let username = match users.find_by_id(winner_id) {
            Some(user) => user.username,
            None => String::from_str(""),
        };
        Ok(
            Some(
                TopScorer {
                    user_id: winner_id,
                    score: scores[best].score,
                    games_played: played,
                    username,
                },
            ),
        )
    }

    /// Whether `user_id` is the winner of `date`.
    pub fn check_top_scorer(&self, games: &GameStore, users: &UserStore, user_id: i64, date: &str)
        -> (r: Result<bool, Error>)
        ensures
            r matches Ok(won) && won == (day_winner(games@.scores, users@, date@) == Some(
                user_id as int,
            )),
    {
        match self.get_top_scorer_for_date(games, users, date) {
            Ok(Some(top)) => Ok(top.user_id == user_id),
            _ => Ok(false),
        }
    }

    fn position_of_prize(&self, user_id: i64, date: &str) -> (r: Option<usize>)
        ensures
            match find_prize_from(self@.payouts, user_id as int, date@, 0) {
                Some(k) => r == Some(k as usize) && 0 <= k < self@.payouts.len() && is_prize_of(
                    self@.payouts[k],
                    user_id as int,
                    date@,
                ) && k < self.payouts.len(),
                None => r is None && forall|j: int|
                    0 <= j < self@.payouts.len() ==> !is_prize_of(
                        #[trigger] self@.payouts[j],
                        user_id as int,
                        date@,
                    ),
            },
    {
        let mut i: usize = 0;
        while i < self.payouts.len()
            invariant
                i <= self.payouts.len(),
                find_prize_from(self@.payouts, user_id as int, date@, 0) == find_prize_from(
                    self@.payouts,
                    user_id as int,
                    date@,
                    i as int,
                ),
                self@.payouts == payout_views(self.payouts@),
                forall|j: int|
                    0 <= j < i ==> !is_prize_of(#[trigger] self@.payouts[j], user_id as int, date@),
            decreases self.payouts.len() - i,
        {
            if self.payouts[i].user_id == user_id && str_eq(self.payouts[i].date.as_str(), date) {
                return Some(i);
            }
            i += 1;
        }
        None
    }

    fn position_of_open_prize(&self, user_id: i64, date: &str) -> (r: Option<usize>)
        ensures
            match find_open_prize_from(self@.payouts, user_id as int, date@, 0) {
                Some(k) => r == Some(k as usize) && 0 <= k < self@.payouts.len() && is_prize_of(
                    self@.payouts[k],
                    user_id as int,
                    date@,
                ) && self@.payouts[k].status == "pending"@ && k < self.payouts.len(),
                None => r is None,
            },
    {
        let mut i: usize = 0;
        while i < self.payouts.len()
            invariant
                i <= self.payouts.len(),
                find_open_prize_from(self@.payouts, user_id as int, date@, 0)
                    == find_open_prize_from(self@.payouts, user_id as int, date@, i as int),
                self@.payouts == payout_views(self.payouts@),
            decreases self.payouts.len() - i,
        {
            let row = &self.payouts[i];
            if row.user_id == user_id && str_eq(row.date.as_str(), date) && str_eq(
                row.status.as_str(),
                "pending",
            ) {
                return Some(i);
            }
            i += 1;
        }
        None
    }

    fn position_of_prize_id(&self, id: i64) -> (r: Option<usize>)
        ensures
            match find_prize_id_from(self@.payouts, id as int, 0) {
                Some(k) => r == Some(k as usize) && 0 <= k < self@.payouts.len()
                    && self@.payouts[k].id == id && k < self.payouts.len(),
                None => r is None,
            },
    {
        let mut i: usize = 0;
        while i < self.payouts.len()
            invariant
                i <= self.payouts.len(),
                find_prize_id_from(self@.payouts, id as int, 0) == find_prize_id_from(
                    self@.payouts,
                    id as int,
                    i as int,
                ),
                self@.payouts == payout_views(self.payouts@),
            decreases self.payouts.len() - i,
        {
            if self.payouts[i].id == id {
                return Some(i);
            }
            i += 1;
        }
        None
    }

    /// Whether a prize has been recorded for `user_id` and `date`, whatever
    /// has become of it.
    pub fn check_prize_claimed(&self, user_id: i64, date: &str) -> (r: Result<bool, Error>)
        ensures
            r matches Ok(claimed) && claimed == (find_prize_from(
                self@.payouts,
                user_id as int,
                date@,
                0,
            ) is Some),
    {
        Ok(self.position_of_prize(user_id, date).is_some())
    }

    /// Records `user_id` as the winner of `date` at `now`, with an open
    /// prize of `amount_sats`. Where the player already has a prize for that
    /// day nothing changes, and that prize is returned. The table is full
    /// once an id has reached the largest.
    pub fn record_daily_winner_at(
        &mut self,
        user_id: i64,
        date: &str,
        score: i64,
        amount_sats: i64,
        now: &Instant,
    ) -> (r: Result<PrizePayout, Error>)
        ensures
            final(self)@.payments == old(self)@.payments,
            match find_prize_from(old(self)@.payouts, user_id as int, date@, 0) {
                Some(k) => {
                    &&& 0 <= k < old(self)@.payouts.len()
                    &&& is_prize_of(old(self)@.payouts[k], user_id as int, date@)
                    &&& r matches Ok(prize) && prize@ == old(self)@.payouts[k]
                    &&& final(self)@ == old(self)@
                },
                None => {
                    &&& next_id(payout_ids(old(self)@.payouts)) <= i64::MAX <==> r is Ok
                    &&& match r {
                        Ok(prize) => {
                            &&& prize@ == recorded_prize(
                                old(self)@.payouts,
                                user_id as int,
                                date@,
                                score as int,
                                amount_sats as int,
                                now.text(),
                            )
                            &&& final(self)@.payouts == old(self)@.payouts.push(prize@)
                        },
                        Err(e) => e is Database && final(self)@ == old(self)@,
                    }
                },
            },
            r is Ok ==> final(self)@.payouts == prizes_after_record(
                old(self)@.payouts,
                user_id as int,
                date@,
                score as int,
                amount_sats as int,
                now.text(),
            ),
    {
        proof {
            use_type_invariant(&*self);
        }
        match self.position_of_prize(user_id, date) {
            Some(k) => {
                return Ok(self.payouts[k].clone());
            },
            None => {},
        }
        let n = self.payouts.len();
        let last: i64 = if n == 0 {
            0
        } else {
            self.payouts[n - 1].id
        };
        let id = match following_id(last) {
            Some(id) => id,
            None => {
                return Err(Error::Database(String::from_str("database or disk is full")));
            },
        };
        let stamp = now.to_iso8601();
        let row = PrizePayout {
            id,
            user_id,
            date: String::from_str(date),
            score,
            amount_sats,
            payment_request: None,
            payment_id: None,
            status: String::from_str("pending"),
            created_at: stamp.clone(),
            updated_at: stamp,
            paid_at: None,
        };
        let copy = row.clone();
        let ghost before = payout_views(self.payouts@);
        let mut rows: Vec<PrizePayout> = Vec::new();
        core::mem::swap(&mut self.payouts, &mut rows);
        rows.push(row);
        proof {
            let after = payout_views(rows@);
            assert(after =~= before.push(copy@));
            assert(payout_ids(after) =~= payout_ids(before).push(next_id(payout_ids(before))));
            lemma_push_in_order(payout_ids(before));
            assert forall|i: int, j: int| 0 <= i < j < after.len() implies !(
            #[trigger] after[i].user_id == #[trigger] after[j].user_id && after[i].date
                == after[j].date) by {
                if j < before.len() {
                    assert(!(before[i].user_id == before[j].user_id && before[i].date
                        == before[j].date));
                } else {
                    assert(!is_prize_of(before[i], user_id as int, date@));
                }
            }
        }
        self.payouts = rows;
        Ok(copy)
    }

    /// Records `user_id` as the winner of `date` now.
    pub fn record_daily_winner(&mut self, user_id: i64, date: &str, score: i64, amount_sats: i64)
        -> (r: Result<PrizePayout, Error>)
        ensures
            final(self)@.payments == old(self)@.payments,
            match r {
                Ok(prize) => {
                    &&& is_prize_of(prize@, user_id as int, date@)
                    &&& match find_prize_from(old(self)@.payouts, user_id as int, date@, 0) {
                        Some(k) => prize@ == old(self)@.payouts[k] && final(self)@ == old(self)@,
                        None => {
                            &&& exists|at: int|
                                representable(at) && prize@ == recorded_prize(
                                    old(self)@.payouts,
                                    user_id as int,
                                    date@,
                                    score as int,
                                    amount_sats as int,
                                    #[trigger] iso8601_text(at),
                                )
                            &&& final(self)@.payouts == old(self)@.payouts.push(prize@)
                        },
                    }
                },
                Err(e) => {
                    &&& final(self)@ == old(self)@
                    &&& clock_stopped(e) || (e is Database && find_prize_from(
                        old(self)@.payouts,
                        user_id as int,
                        date@,
                        0,
                    ) is None && next_id(payout_ids(old(self)@.payouts)) > i64::MAX)
                },
            },
    {
        let now = match current_time() {
            Ok(now) => now,
            Err(e) => {
                return Err(e);
            },
        };
        let r = self.record_daily_winner_at(user_id, date, score, amount_sats, &now);
        proof {
            assert(now.text() == iso8601_text(now.nanos()));
        }
        r
    }

    /// Attaches `invoice` to the open prize of `user_id` for `date` at `now`
    /// and returns the prize as it then stands, or nothing where the player
    /// has no open prize for that day.
    pub fn update_prize_with_invoice_at(
        &mut self,
        user_id: i64,
        date: &str,
        invoice: &str,
        now: &Instant,
    ) -> (r: Result<Option<PrizePayout>, Error>)
        ensures
            final(self)@ == (LedgerView {
                payouts: prizes_after_invoice(
                    old(self)@.payouts,
                    user_id as int,
                    date@,
                    invoice@,
                    now.text(),
                ),
                ..old(self)@
            }),
            match find_open_prize_from(old(self)@.payouts, user_id as int, date@, 0) {
                Some(k) => r matches Ok(Some(prize)) && prize@ == final(self)@.payouts[k]
                    && prize@ == invoiced_prize(old(self)@.payouts[k], invoice@, now.text()),
                None => r matches Ok(None),
            },
    {
        proof {
            use_type_invariant(&*self);
        }
        let hit = self.position_of_open_prize(user_id, date);
        let stamp = now.to_iso8601();
        let ghost before = payout_views(self.payouts@);
        let ghost goal = prizes_after_invoice(
            before,
            user_id as int,
            date@,
            invoice@,
            now.text(),
        );
        let mut old_rows: Vec<PrizePayout> = Vec::new();
        core::mem::swap(&mut self.payouts, &mut old_rows);
        let mut rows: Vec<PrizePayout> = Vec::new();
        let mut i: usize = 0;
        while i < old_rows.len()
            invariant
                i <= old_rows.len(),
                rows.len() == i,
                before == payout_views(old_rows@),
                goal == prizes_after_invoice(
                    before,
                    user_id as int,
                    date@,
                    invoice@,
                    now.text(),
                ),
                stamp@ == now.text(),
                forall|j: int| 0 <= j < i ==> #[trigger] rows@[j]@ == goal[j],
            decreases old_rows.len() - i,
        {
            let row = &old_rows[i];
            if row.user_id == user_id && str_eq(row.date.as_str(), date) && str_eq(
                row.status.as_str(),
                "pending",
            ) {
                rows.push(
                    PrizePayout {
                        id: row.id,
                        user_id: row.user_id,
                        date: row.date.clone(),
                        score: row.score,
                        amount_sats: row.amount_sats,
                        payment_request: Some(String::from_str(invoice)),
                        payment_id: clone_opt(&row.payment_id),
                        status: row.status.clone(),
                        created_at: row.created_at.clone(),
                        updated_at: stamp.clone(),
                        paid_at: clone_opt(&row.paid_at),
                    },
                );
            } else {
                rows.push(row.clone());
            }
            i += 1;
        }
        proof {
            let after = payout_views(rows@);
            assert(after =~= goal);
            assert(payout_ids(after) =~= payout_ids(before));
            assert forall|a: int, b: int| 0 <= a < b < after.len() implies !(
            #[trigger] after[a].user_id == #[trigger] after[b].user_id && after[a].date
                == after[b].date) by {
                assert(!(before[a].user_id == before[b].user_id && before[a].date
                    == before[b].date));
            }
        }
        let found = match hit {
            Some(k) => Some(rows[k].clone()),
            None => None,
        };
        self.payouts = rows;
        Ok(found)
    }

    /// Attaches `invoice` to the open prize of `user_id` for `date` now.
    pub fn update_prize_with_invoice(&mut self, user_id: i64, date: &str, invoice: &str) -> (r:
        Result<Option<PrizePayout>, Error>)
        ensures
            final(self)@.payments == old(self)@.payments,
            match r {
                Ok(found) => {
                    &&& exists|at: int|
                        representable(at) && final(self)@.payouts == prizes_after_invoice(
                            old(self)@.payouts,
                            user_id as int,
                            date@,
                            invoice@,
                            #[trigger] iso8601_text(at),
                        )
                    &&& match find_open_prize_from(old(self)@.payouts, user_id as int, date@, 0) {
                        Some(k) => found matches Some(prize) && prize@ == final(self)@.payouts[k],
                        None => found is None,
                    }
                },
                Err(e) => final(self)@ == old(self)@ && clock_stopped(e),
            },
    {
        let now = match current_time() {
            Ok(now) => now,
            Err(e) => {
                return Err(e);
            },
        };
        let r = self.update_prize_with_invoice_at(user_id, date, invoice, &now);
        proof {
            assert(now.text() == iso8601_text(now.nanos()));
        }
        r
    }

    /// Settles the prize with the id `id` as `status`, at the time `stamp` or
    /// without one, and returns it as it then stands.
    fn settle_prize(&mut self, id: i64, status: &str, payment_id: Option<&str>, stamp: Option<
        &str,
    >) -> (found: Option<PrizePayout>)
        ensures
            final(self)@ == (LedgerView {
                payouts: prizes_settled(
                    old(self)@.payouts,
                    id as int,
                    status@,
                    opt_str(payment_id),
                    opt_str(stamp),
                ),
                ..old(self)@
            }),
            match find_prize_id_from(old(self)@.payouts, id as int, 0) {
                Some(k) => found matches Some(prize) && prize@ == final(self)@.payouts[k],
                None => found is None,
            },
    {
        proof {
            use_type_invariant(&*self);
        }
        let hit = self.position_of_prize_id(id);
        let paid = str_eq(status, "paid");
        let ghost before = payout_views(self.payouts@);
        let ghost goal = prizes_settled(
            before,
            id as int,
            status@,
            opt_str(payment_id),
            opt_str(stamp),
        );
        let mut old_rows: Vec<PrizePayout> = Vec::new();
        core::mem::swap(&mut self.payouts, &mut old_rows);
        let mut rows: Vec<PrizePayout> = Vec::new();
        let mut i: usize = 0;
        while i < old_rows.len()
            invariant
                i <= old_rows.len(),
                rows.len() == i,
                before == payout_views(old_rows@),
                goal == prizes_settled(
                    before,
                    id as int,
                    status@,
                    opt_str(payment_id),
                    opt_str(stamp),
                ),
                paid == (status@ == "paid"@),
                forall|j: int| 0 <= j < i ==> #[trigger] rows@[j]@ == goal[j],
            decreases old_rows.len() - i,
        {
            let row = &old_rows[i];
            if row.id == id {
                let at = match stamp {
                    Some(text) => String::from_str(text),
                    None => row.updated_at.clone(),
                };
                rows.push(
                    PrizePayout {
                        id: row.id,
                        user_id: row.user_id,
                        date: row.date.clone(),
                        score: row.score,
                        amount_sats: row.amount_sats,
                        payment_request: clone_opt(&row.payment_request),
                        payment_id: match payment_id {
                            Some(p) => Some(String::from_str(p)),
                            None => None,
                        },
                        status: String::from_str(status),
                        created_at: row.created_at.clone(),
                        updated_at: at.clone(),
                        paid_at: if paid {
                            Some(at)
                        } else {
                            None
                        },
                    },
                );
            } else {
                rows.push(row.clone());
            }
            i += 1;
        }
        proof {
            let after = payout_views(rows@);
            assert(after =~= goal);
            assert(payout_ids(after) =~= payout_ids(before));
            assert forall|a: int, b: int| 0 <= a < b < after.len() implies !(
            #[trigger] after[a].user_id == #[trigger] after[b].user_id && after[a].date
                == after[b].date) by {
                assert(!(before[a].user_id == before[b].user_id && before[a].date
                    == before[b].date));
            }
        }
        let found = match hit {
            Some(k) => Some(rows[k].clone()),
            None => None,
        };
        self.payouts = rows;
        found
    }

    /// Settles the prize with the id `id` as `status` at `now`, with the
    /// provider's id of the payment where there is one, and returns it as it
    /// then stands, or nothing where no prize has that id. The time of
    /// payment is set for "paid" and cleared for any other status.
    pub fn update_prize_status_at(
        &mut self,
        id: i64,
        status: &str,
        payment_id: Option<&str>,
        now: &Instant,
    ) -> (r: Result<Option<PrizePayout>, Error>)
        ensures
            final(self)@ == (LedgerView {
                payouts: prizes_after_status(
                    old(self)@.payouts,
                    id as int,
                    status@,
                    match payment_id {
                        Some(p) => Some(p@),
                        None => None,
                    },
                    now.text(),
                ),
                ..old(self)@
            }),
            match find_prize_id_from(old(self)@.payouts, id as int, 0) {
                Some(k) => r matches Ok(Some(prize)) && prize@ == final(self)@.payouts[k],
                None => r matches Ok(None),
            },
    {
        let stamp = now.to_iso8601();
        let ghost before = self@.payouts;
        let found = self.settle_prize(id, status, payment_id, Some(stamp.as_str()));
        proof {
            assert(prizes_settled(
                before,
                id as int,
                status@,
                opt_str(payment_id),
                Some(now.text()),
            ) =~= prizes_after_status(
                before,
                id as int,
                status@,
                opt_str(payment_id),
                now.text(),
            ));
        }
        Ok(found)
    }

    /// Settles the prize with the id `id` as `status` where the clock cannot
    /// be read: the prize keeps the time of its last change, which also
    /// stands for the time of payment where the status is "paid". A payout
    /// that the provider has carried out is thus on record whatever the
    /// clock does.
    pub fn update_prize_status_undated(&mut self, id: i64, status: &str, payment_id: Option<&str>)
        -> (found: Option<PrizePayout>)
        ensures
            final(self)@ == (LedgerView {
                payouts: prizes_settled(
                    old(self)@.payouts,
                    id as int,
                    status@,
                    opt_str(payment_id),
                    None,
                ),
                ..old(self)@
            }),
            match find_prize_id_from(old(self)@.payouts, id as int, 0) {
                Some(k) => found matches Some(prize) && prize@ == final(self)@.payouts[k],
                None => found is None,
            },
    {
        self.settle_prize(id, status, payment_id, None)
    }

    /// Settles the prize with the id `id` as `status` now.
    pub fn update_prize_status(&mut self, id: i64, status: &str, payment_id: Option<&str>) -> (r:
        Result<Option<PrizePayout>, Error>)
        ensures
            final(self)@.payments == old(self)@.payments,
            match r {
                Ok(found) => {
                    &&& exists|at: int|
                        representable(at) && final(self)@.payouts == prizes_after_status(
                            old(self)@.payouts,
                            id as int,
                            status@,
                            match payment_id {
                                Some(p) => Some(p@),
                                None => None,
                            },
                            #[trigger] iso8601_text(at),
                        )
                    &&& match find_prize_id_from(old(self)@.payouts, id as int, 0) {
                        Some(k) => found matches Some(prize) && prize@ == final(self)@.payouts[k],
                        None => found is None,
                    }
                },
                Err(e) => final(self)@ == old(self)@ && clock_stopped(e),
            },
    {
        let now = match current_time() {
            Ok(now) => now,
            Err(e) => {
                return Err(e);
            },
        };
        let r = self.update_prize_status_at(id, status, payment_id, &now);
        proof {
            assert(now.text() == iso8601_text(now.nanos()));
        }
        r
    }

    /// The open prize of `user_id` for `date`.
    pub fn get_pending_prize_for_user(&self, user_id: i64, date: &str) -> (r: Result<
        Option<PrizePayout>,
        Error,
    >)
        ensures
            match find_open_prize_from(self@.payouts, user_id as int, date@, 0) {
                Some(k) => r matches Ok(Some(prize)) && 0 <= k < self@.payouts.len() && prize@
                    == self@.payouts[k] && is_prize_of(prize@, user_id as int, date@)
                    && prize.status@ == "pending"@,
                None => r matches Ok(None),
            },
    {
        match self.position_of_open_prize(user_id, date) {
            Some(k) => Ok(Some(self.payouts[k].clone())),
            None => Ok(None),
        }
    }
}

} // verus!
