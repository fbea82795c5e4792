//! Time as the library keeps it: an instant is a count of nanoseconds since
//! the Unix epoch, inside the years that a four-digit ISO 8601 date can name.
//! Reading the clock, writing an instant as text and reading it back are
//! left to the `time` crate; the arithmetic is done here.

use vstd::prelude::*;
use vstd::string::*;
use crate::text::{leading, take_chars};

verus! {

pub const NANOS_PER_SECOND: i128 = 1_000_000_000;

pub const SECONDS_PER_DAY: i64 = 86_400;

/// Seconds from the epoch back to 0000-01-01T00:00:00Z: 719 528 days.
pub const FIRST_SECOND: i64 = -62_167_219_200;

/// Seconds from the epoch to 10000-01-01T00:00:00Z, the first instant that
/// four digits of year no longer reach.
pub const END_SECOND: i64 = 253_402_300_800;

/// Whether `unix_nanos` lies in the years 0000 to 9999.
pub open spec fn representable(unix_nanos: int) -> bool {
    FIRST_SECOND * NANOS_PER_SECOND <= unix_nanos < END_SECOND * NANOS_PER_SECOND
}

/// The ISO 8601 text of the instant `unix_nanos`, as the `time` crate writes
/// it with its default configuration. It is meant for representable instants.
pub uninterp spec fn iso8601_text(unix_nanos: int) -> Seq<char>;

/// The instant that the `time` crate reads from `text` as ISO 8601 with its
/// default configuration, or `None` where it rejects the text.
pub uninterp spec fn iso8601_instant(text: Seq<char>) -> Option<int>;

/// A point in time between 0000-01-01T00:00:00Z and the end of the year 9999.
#[derive(Clone, Copy, Debug)]
pub struct Instant {
    unix_nanos: i128,
}

/// `time::OffsetDateTime::now_utc` followed by `unix_timestamp_nanos`: the
/// reading of the system clock. Nothing is claimed of the value.
#[verifier::external_body]
fn system_clock_nanos() -> i128 {
    time::OffsetDateTime::now_utc().unix_timestamp_nanos()
}

/// `time::OffsetDateTime::from_unix_timestamp_nanos` followed by `format`
/// with `Iso8601::DEFAULT`. The contract claims that the text is a function
/// of the instant alone. For the instants admitted here the first call is in
/// range and the year has four digits, so neither call fails.
#[verifier::external_body]
fn write_iso8601(unix_nanos: i128) -> (text: String)
    requires
        representable(unix_nanos as int),
    ensures
        text@ == iso8601_text(unix_nanos as int),
{
    let format = time::format_description::well_known::Iso8601::DEFAULT;
    match time::OffsetDateTime::from_unix_timestamp_nanos(unix_nanos) {
        Ok(moment) => match moment.format(&format) {
            Ok(text) => text,
            Err(_) => String::new(),
        },
        Err(_) => String::new(),
    }
}

/// `time::OffsetDateTime::parse` with `Iso8601::DEFAULT`, followed by
/// `unix_timestamp_nanos`. The contract claims that acceptance and the
/// instant read are functions of the text alone.
#[verifier::external_body]
fn read_iso8601(text: &str) -> (unix_nanos: Option<i128>)
    ensures
        match unix_nanos {
            Some(n) => iso8601_instant(text@) == Some(n as int),
            None => iso8601_instant(text@) is None,
        },
{
    let format = time::format_description::well_known::Iso8601::DEFAULT;
    match time::OffsetDateTime::parse(text, &format) {
        Ok(moment) => Some(moment.unix_timestamp_nanos()),
        Err(_) => None,
    }
}

/// The calendar date one day before the instant `unix_nanos`, where that
/// day can be written.
pub open spec fn day_before(unix_nanos: int) -> Option<Seq<char>> {
    if representable(unix_nanos - 86_400 * 1_000_000_000) {
        Some(leading(iso8601_text(unix_nanos - 86_400 * 1_000_000_000), 10))
    } else {
        None
    }
}

/// Whole minutes from `start` to `now`, rounded toward zero.
pub open spec fn whole_minutes_between(start: int, now: int) -> int {
    if now >= start {
        (now - start) / 60_000_000_000
    } else {
        -((start - now) / 60_000_000_000)
    }
}

impl Instant {
    #[verifier::type_invariant]
    spec fn in_range(self) -> bool {
        representable(self.unix_nanos as int)
    }

    /// Nanoseconds since the Unix epoch.
    pub closed spec fn nanos(self) -> int {
        self.unix_nanos as int
    }

    /// Seconds since the Unix epoch, rounded down.
    pub open spec fn seconds(self) -> int {
        self.nanos() / (NANOS_PER_SECOND as int)
    }

    /// Seconds since midnight UTC.
    pub open spec fn second_of_day(self) -> int {
        self.seconds() % (SECONDS_PER_DAY as int)
    }

    /// The hour of the day in UTC, 0 to 23.
    pub open spec fn spec_hour(self) -> int {
        self.second_of_day() / 3600
    }

    /// The minute of the hour in UTC, 0 to 59.
    pub open spec fn spec_minute(self) -> int {
        (self.second_of_day() % 3600) / 60
    }

    /// The ISO 8601 text of this instant.
    pub open spec fn text(self) -> Seq<char> {
        iso8601_text(self.nanos())
    }

    /// The instant `unix_nanos`, where it is representable.
    pub fn from_unix_nanos(unix_nanos: i128) -> (r: Option<Instant>)
        ensures
            r is Some <==> representable(unix_nanos as int),
            r matches Some(t) ==> t.nanos() == unix_nanos,
    {
        let first: i128 = -62_167_219_200 * 1_000_000_000;
        let end: i128 = 253_402_300_800 * 1_000_000_000;
        if first <= unix_nanos && unix_nanos < end {
            Some(Instant { unix_nanos })
        } else {
            None
        }
    }

    /// The instant `unix_seconds` whole seconds after the epoch, where it is
    /// representable.
    pub fn from_unix_seconds(unix_seconds: i64) -> (r: Option<Instant>)
        ensures
            r is Some <==> FIRST_SECOND <= unix_seconds < END_SECOND,
            r matches Some(t) ==> t.nanos() == unix_seconds * NANOS_PER_SECOND,
    {
        if -62_167_219_200 <= unix_seconds && unix_seconds < 253_402_300_800 {
            let wide: i128 = unix_seconds as i128;
            Some(Instant { unix_nanos: wide * 1_000_000_000 })
        } else {
            None
        }
    }

    /// The Unix epoch, 1970-01-01T00:00:00Z.
    pub fn epoch() -> (t: Instant)
        ensures
            t.nanos() == 0,
            representable(t.nanos()),
    {
        Instant { unix_nanos: 0 }
    }

    /// The reading of the system clock, where it is representable: `None`
    /// for a clock that stands before the year 0000. A clock beyond the
    /// year 9999 is beyond what the `time` crate holds, which gives up on
    /// reading it.
    pub fn now() -> (r: Option<Instant>)
        ensures
            r matches Some(t) ==> representable(t.nanos()),
    {
        Instant::from_unix_nanos(system_clock_nanos())
    }

    /// Nanoseconds since the Unix epoch.
    pub fn unix_nanos(&self) -> (n: i128)
        ensures
            n == self.nanos(),
            representable(n as int),
    {
        proof {
            use_type_invariant(*self);
        }
        self.unix_nanos
    }

    /// Seconds since the Unix epoch, rounded down.
    pub fn unix_seconds(&self) -> (s: i64)
        ensures
            s == self.seconds(),
            FIRST_SECOND <= s < END_SECOND,
    {
        proof {
            use_type_invariant(*self);
        }
        let shifted: i128 = self.unix_nanos + 62_167_219_200 * 1_000_000_000;
        let whole: i128 = shifted / 1_000_000_000;
        assert(whole == self.unix_nanos as int / 1_000_000_000 + 62_167_219_200) by (
            nonlinear_arith)
            requires
                shifted == self.unix_nanos as int + 62_167_219_200 * 1_000_000_000,
                whole == shifted as int / 1_000_000_000,
        ;
        assert(-62_167_219_200 <= self.unix_nanos as int / 1_000_000_000 < 253_402_300_800)
            by (nonlinear_arith)
            requires
                -62_167_219_200 * 1_000_000_000 <= self.unix_nanos as int,
                (self.unix_nanos as int) < 253_402_300_800 * 1_000_000_000,
        ;
        (whole - 62_167_219_200) as i64
    }

    /// Seconds since midnight UTC.
    pub fn seconds_into_day(&self) -> (s: u32)
        ensures
            s == self.second_of_day(),
            s < 86_400,
    {
        let seconds = self.unix_seconds();
        let shifted: i64 = seconds + 62_167_219_200;
        let rest: i64 = shifted % 86_400;
        assert(rest == (seconds as int) % 86_400) by (nonlinear_arith)
            requires
                shifted == seconds as int + 719_528 * 86_400,
                rest == (shifted as int) % 86_400,
        ;
        rest as u32
    }

    /// The hour of the day in UTC.
    pub fn hour(&self) -> (h: u8)
        ensures
            h == self.spec_hour(),
            h < 24,
    {
        (self.seconds_into_day() / 3600) as u8
    }

    /// The minute of the hour in UTC.
    pub fn minute(&self) -> (m: u8)
        ensures
            m == self.spec_minute(),
            m < 60,
    {
        ((self.seconds_into_day() % 3600) / 60) as u8
    }

    /// This instant moved by `seconds`, backward where they are negative;
    /// `None` where that leaves the representable years.
    pub fn shifted(&self, seconds: i64) -> (r: Option<Instant>)
        ensures
            r is Some <==> representable(self.nanos() + seconds * NANOS_PER_SECOND),
            r matches Some(t) ==> t.nanos() == self.nanos() + seconds * NANOS_PER_SECOND,
    {
        proof {
            use_type_invariant(*self);
        }
        let wide: i128 = seconds as i128;
        Instant::from_unix_nanos(self.unix_nanos + wide * 1_000_000_000)
    }

    /// The calendar date of the day before this instant, where that day can
    /// be written.
    pub fn yesterday(&self) -> (date: Option<String>)
        ensures
            crate::text::opt_text(date) == day_before(self.nanos()),
    {
        match self.shifted(-SECONDS_PER_DAY) {
            Some(earlier) => Some(earlier.to_date()),
            None => None,
        }
    }

    /// Whole minutes from `start` to this instant, rounded toward zero.
    pub fn minutes_since(&self, start: &Instant) -> (m: i64)
        ensures
            m == whole_minutes_between(start.nanos(), self.nanos()),
    {
        proof {
            use_type_invariant(*self);
            use_type_invariant(*start);
        }
        if self.unix_nanos >= start.unix_nanos {
            ((self.unix_nanos - start.unix_nanos) / 60_000_000_000) as i64
        } else {
            let back: i128 = (start.unix_nanos - self.unix_nanos) / 60_000_000_000;
            (-back) as i64
        }
    }

    /// The calendar date of this instant in UTC: the first ten characters of
    /// its text.
    pub open spec fn date(self) -> Seq<char> {
        leading(self.text(), 10)
    }

    /// The calendar date of this instant in UTC, as `YYYY-MM-DD`.
    pub fn to_date(&self) -> (date: String)
        ensures
            date@ == self.date(),
    {
        let text = self.to_iso8601();
        take_chars(text.as_str(), 10)
    }

    /// The ISO 8601 text of this instant.
    pub fn to_iso8601(&self) -> (text: String)
        ensures
            text@ == self.text(),
    {
        proof {
            use_type_invariant(*self);
        }
        write_iso8601(self.unix_nanos)
    }

    /// The instant that `text` names in ISO 8601, where the text is accepted
    /// and the instant is representable.
    pub fn parse_iso8601(text: &str) -> (r: Option<Instant>)
        ensures
            match iso8601_instant(text@) {
                Some(n) => if representable(n) {
                    r matches Some(t) && t.nanos() == n
                } else {
                    r is None
                },
                None => r is None,
            },
    {
        match read_iso8601(text) {
            Some(n) => Instant::from_unix_nanos(n),
            None => None,
        }
    }
}

} // verus!
