//! The daily prize: what a day's pool is worth, and when it is settled.

use vstd::prelude::*;
use crate::clock::Instant;

verus! {

/// Sats that go to the prize pool for each paid game: nine tenths of the
/// entry fee.
pub const PRIZE_SHARE_SATS: i64 = 450;

/// The pool of a day on which `games` paid games were played.
pub open spec fn prize_pool(games: int) -> int {
    games * 450
}

/// The pool in sats, or `None` where the product leaves the range of `i64`.
pub fn prize_amount(games: i64) -> (amount: Option<i64>)
    ensures
        amount == if i64::MIN <= prize_pool(games as int) <= i64::MAX {
            Some(prize_pool(games as int) as i64)
        } else {
            None::<i64>
        },
{
    games.checked_mul(PRIZE_SHARE_SATS)
}

/// A prize in thousandths of a sat, or `None` where the product leaves the
/// range of `i64`.
pub fn to_msats(amount_sats: i64) -> (amount: Option<i64>)
    ensures
        amount == if i64::MIN <= amount_sats * 1000 <= i64::MAX {
            Some((amount_sats * 1000) as i64)
        } else {
            None::<i64>
        },
{
    amount_sats.checked_mul(1000)
}

/// Whether a day is settled at this time of day: from five to a quarter
/// past midnight UTC.
pub open spec fn in_window(hour: int, minute: int) -> bool {
    hour == 0 && 5 <= minute < 15
}

/// Whether the day before is settled at `now`.
pub fn in_settlement_window(now: &Instant) -> (open: bool)
    ensures
        open == in_window(now.spec_hour(), now.spec_minute()),
{
    let minute = now.minute();
    now.hour() == 0 && minute >= 5 && minute < 15
}

} // verus!
