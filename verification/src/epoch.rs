//! Points in time, counted in milliseconds.

use chrono::TimeZone;
use vstd::prelude::*;

verus! {

/// A point in time: milliseconds since 1970-01-01T00:00:00Z, leap seconds
/// not counted. One millisecond is the smallest step between two instants.
#[derive(Clone, Copy, Debug, PartialEq, Eq, Structural)]
pub struct Epoch {
    pub millis: i64,
}

/// The millisecond count of a civil date and time of day in UTC, in the
/// proleptic Gregorian calendar.
pub uninterp spec fn utc_timestamp_millis(
    year: i32,
    month: u32,
    day: u32,
    hour: u32,
    min: u32,
    sec: u32,
) -> i64;

/// Calls chrono's `Utc.with_ymd_and_hms` and reads the result with
/// `DateTime::timestamp_millis`.
///
/// Trusted: the result is `utc_timestamp_millis` of the six fields. The
/// fields are confined to days that every month has and to times of day
/// without a leap second, in years for which chrono has a date, so that
/// chrono finds exactly one instant and the call does not panic.
#[verifier::external_body]
fn utc_millis(year: i32, month: u32, day: u32, hour: u32, min: u32, sec: u32) -> (millis: i64)
    requires
        1970 <= year <= 9999,
        1 <= month <= 12,
        1 <= day <= 28,
        hour <= 23,
        min <= 59,
        sec <= 59,
    ensures
        millis == utc_timestamp_millis(year, month, day, hour, min, sec),
{
    chrono::Utc.with_ymd_and_hms(year, month, day, hour, min, sec).unwrap().timestamp_millis()
}

impl Epoch {
    /// The instant from which a transaction listing starts when its caller
    /// names none: 2022-04-06T00:01:01Z.
    pub open spec fn default_after_spec() -> Epoch {
        Epoch { millis: utc_timestamp_millis(2022, 4, 6, 0, 1, 1) }
    }

    /// The instant from which a transaction listing starts when its caller
    /// names none.
    pub fn default_after() -> (e: Epoch)
        ensures
            e == Self::default_after_spec(),
    {
        Epoch { millis: utc_millis(2022, 4, 6, 0, 1, 1) }
    }

    /// Whether one millisecond can be added to this instant.
    pub open spec fn has_successor(self) -> bool {
        self.millis < i64::MAX
    }

    /// This instant, one millisecond later.
    pub open spec fn successor_spec(self) -> Epoch {
        Epoch { millis: (self.millis + 1) as i64 }
    }

    /// The instant one millisecond after this one: the earliest instant
    /// that is strictly later.
    pub fn successor(self) -> (next: Epoch)
        requires
            self.has_successor(),
        ensures
            next == self.successor_spec(),
            next.millis == self.millis + 1,
    {
        Epoch { millis: self.millis + 1 }
    }
}

} // verus!
