//! The release schedule: for a given (year, day) the earliest instant at
//! which that day's input may be fetched, namely midnight of December `day`
//! of `year` in the fixed UTC-5 offset that the service's schedule is
//! defined in.
//!
//! The boundary is stated exactly, as a Unix timestamp computed from the
//! proleptic Gregorian calendar; the executable computation is delegated to
//! chrono and checked against that statement.

use vstd::prelude::*;

use chrono::TimeZone;

verus! {

/// Whether a year is a leap year of the proleptic Gregorian calendar.
pub open spec fn spec_is_leap(y: int) -> bool {
    y % 4 == 0 && (y % 100 != 0 || y % 400 == 0)
}

/// The number of days from 1970-01-01 to January 1 of year `y` (negative
/// for years before 1970): 365 per year, plus one per leap year in
/// between. `(y-1)/4 - (y-1)/100 + (y-1)/400` counts the leap years up to
/// and including `y - 1`; 477 is that count for 1969, so the difference is
/// the number of leap years in [1970, y).
pub open spec fn spec_days_to_jan1(y: int) -> int {
    365 * (y - 1970) + (y - 1) / 4 - (y - 1) / 100 + (y - 1) / 400 - 477
}

/// The number of days from 1970-01-01 to December 1 of year `y`. January
/// through November together hold 334 days, one more in a leap year.
pub open spec fn spec_days_to_dec1(y: int) -> int {
    spec_days_to_jan1(y) + 334 + if spec_is_leap(y) {
        1int
    } else {
        0int
    }
}

/// The release boundary of (year, day) as a Unix timestamp: midnight of
/// December `day` in the fixed UTC-5 offset, i.e. 05:00 UTC of that date.
pub open spec fn spec_release_boundary(year: int, day: int) -> int {
    (spec_days_to_dec1(year) + (day - 1)) * 86400 + 5 * 3600
}

/// Relies on chrono: `FixedOffset::west_opt(18000)` is the fixed UTC-5
/// offset; `TimeZone::with_ymd_and_hms` builds December `day` of `year` at
/// midnight in that offset (a fixed offset maps every local datetime to
/// exactly one instant, so the result is single-valued for these
/// arguments); `DateTime::timestamp` returns the seconds since
/// 1970-01-01T00:00:00 UTC of that instant, in the proleptic Gregorian
/// calendar.
#[verifier::external_body]
fn chrono_release_ts(year: usize, day: usize) -> (r: i64)
    requires
        year < 3000,
        1 <= day <= 25,
    ensures
        r as int == spec_release_boundary(year as int, day as int),
{
    let offset = chrono::FixedOffset::west_opt(5 * 3600).unwrap();
    let start = offset.with_ymd_and_hms(year as i32, 12, day as u32, 0, 0, 0).unwrap();
    start.timestamp()
}

/// Relies on chrono: `Utc::now` reads the system clock. The result depends
/// on the clock, so nothing is promised of it.
#[verifier::external_body]
fn chrono_now_ts() -> (r: i64) {
    chrono::Utc::now().timestamp()
}

/// The release boundary of (year, day) as a Unix timestamp.
pub fn release_timestamp(year: usize, day: usize) -> (r: i64)
    requires
        year < 3000,
        1 <= day <= 25,
    ensures
        r as int == spec_release_boundary(year as int, day as int),
{
    chrono_release_ts(year, day)
}

/// The current instant as a Unix timestamp, read from the system clock.
pub fn now_timestamp() -> (r: i64) {
    chrono_now_ts()
}

} // verus!
