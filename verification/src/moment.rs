//! Points in time as a calendar names them: an instant, and the offset of the
//! wall clock it was read from.

use chrono::{FixedOffset, NaiveDate, TimeZone};
use vstd::prelude::*;

verus! {

pub const NANOS_PER_SECOND: i128 = 1_000_000_000;

pub const SECONDS_PER_DAY: i128 = 86_400;

/// An instant, kept with the UTC offset of the clock that named it.
///
/// Two moments are ordered by [`Moment::instant`] alone; the offset only
/// decides which hour and minute a wall clock shows at that instant.
#[derive(Clone, Copy, Debug, PartialEq, Eq, Structural)]
pub struct Moment {
    /// Whole seconds since 1970-01-01T00:00:00Z.
    pub secs: i64,
    /// Nanoseconds past `secs`.
    pub nanos: u32,
    /// Seconds by which the wall clock is ahead of UTC.
    pub offset: i32,
}

/// A day of the civil calendar, as written: nothing here says that it exists.
#[derive(Clone, Copy, Debug, PartialEq, Eq, Structural)]
pub struct Day {
    pub year: i32,
    pub month: u32,
    pub day: u32,
}

/// The second, counted from the epoch, at which the civil day `year-month-day`
/// begins on a wall clock `offset` seconds ahead of UTC, as the `chrono` crate
/// computes it. `None` where chrono knows no such day, offset or instant.
pub uninterp spec fn midnight_secs(year: i32, month: u32, day: u32, offset: i32) -> Option<i64>;

/// Asks chrono for the start of a civil day on a clock with a fixed offset:
/// `NaiveDate::from_ymd_opt`, `and_hms_opt(0, 0, 0)`, then
/// `FixedOffset::from_local_datetime` and `DateTime::timestamp`.
///
/// Trusted: the result is the one that [`midnight_secs`] names, that is, it
/// depends on the four numbers alone. Every step that can refuse its input
/// returns `None` rather than panicking. An instant that is returned is a
/// midnight of that clock: chrono takes the offset from the local midnight
/// and counts the seconds of whole days up to it, so the offset added back
/// gives a whole number of days.
#[verifier::external_body]
fn start_of_day(year: i32, month: u32, day: u32, offset: i32) -> (secs: Option<i64>)
    ensures
        secs == midnight_secs(year, month, day, offset),
        secs matches Some(at) ==> (at + offset) % (SECONDS_PER_DAY as int) == 0,
{
    let zone = FixedOffset::east_opt(offset)?;
    let midnight = NaiveDate::from_ymd_opt(year, month, day)?.and_hms_opt(0, 0, 0)?;
    let at = zone.from_local_datetime(&midnight).single()?;
    Some(at.timestamp())
}

impl Moment {
    /// Nanoseconds since the epoch.
    pub open spec fn instant(self) -> int {
        self.secs * NANOS_PER_SECOND + self.nanos
    }

    /// Seconds since local midnight on the wall clock.
    pub open spec fn wall_second(self) -> int {
        (self.secs + self.offset) % (SECONDS_PER_DAY as int)
    }

    /// The wall clock's hour, 0 to 23.
    pub open spec fn spec_hour(self) -> int {
        self.wall_second() / 3600
    }

    /// The wall clock's minute, 0 to 59.
    pub open spec fn spec_minute(self) -> int {
        (self.wall_second() % 3600) / 60
    }

    /// The moment at which `day` begins on a clock `offset` seconds ahead of
    /// UTC, where there is one.
    pub open spec fn spec_start_of(day: Day, offset: i32) -> Option<Moment> {
        match midnight_secs(day.year, day.month, day.day, offset) {
            Some(secs) => Some(Moment { secs, nanos: 0, offset }),
            None => None,
        }
    }

    pub fn new(secs: i64, nanos: u32, offset: i32) -> (m: Moment)
        ensures
            m == (Moment { secs, nanos, offset }),
    {
        Moment { secs, nanos, offset }
    }

    /// The first moment of `day` for a clock `offset` seconds ahead of UTC, or
    /// `None` where the calendar has no such day.
    pub fn start_of(day: &Day, offset: i32) -> (m: Option<Moment>)
        ensures
            m == Moment::spec_start_of(*day, offset),
            m matches Some(at) ==> at.spec_hour() == 0 && at.spec_minute() == 0,
    {
        match start_of_day(day.year, day.month, day.day, offset) {
            Some(secs) => Some(Moment { secs, nanos: 0, offset }),
            None => None,
        }
    }

    fn second_of_day(&self) -> (s: u32)
        ensures
            s == self.wall_second(),
            s < 86_400,
    {
        let local: i128 = self.secs as i128 + self.offset as i128;
        match local.checked_rem_euclid(SECONDS_PER_DAY) {
            Some(s) => s as u32,
            None => 0,
        }
    }

    pub fn hour(&self) -> (h: u8)
        ensures
            h == self.spec_hour(),
            h < 24,
    {
        (self.second_of_day() / 3600) as u8
    }

    pub fn minute(&self) -> (m: u8)
        ensures
            m == self.spec_minute(),
            m < 60,
    {
        (self.second_of_day() % 3600 / 60) as u8
    }

    /// Nanoseconds from `earlier` to `self`; negative where `self` comes first.
    pub fn nanos_since(&self, earlier: &Moment) -> (d: i128)
        ensures
            d == self.instant() - earlier.instant(),
    {
        let a: i128 = self.secs as i128 * NANOS_PER_SECOND + self.nanos as i128;
        let b: i128 = earlier.secs as i128 * NANOS_PER_SECOND + earlier.nanos as i128;
        a - b
    }

    pub fn is_before(&self, other: &Moment) -> (b: bool)
        ensures
            b == (self.instant() < other.instant()),
    {
        self.nanos_since(other) < 0
    }
}

} // verus!
