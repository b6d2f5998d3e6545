//! UTC calendar fields of an instant given in seconds since the epoch.

use chrono::{DateTime, Datelike, Timelike, Utc};
use vstd::prelude::*;

verus! {

/// The calendar fields of a UTC instant that the histograms read.
#[derive(Clone, Copy, Debug)]
pub struct CivilTime {
    pub year: i32,
    /// Month of the year, 1 to 12.
    pub month: u32,
    /// Hour of the day, 0 to 23.
    pub hour: u32,
}

impl CivilTime {
    /// Month and hour lie in their calendar ranges.
    pub open spec fn wf(self) -> bool {
        1 <= self.month <= 12 && self.hour < 24
    }
}

/// The proleptic Gregorian calendar fields, in UTC, of the instant `secs`
/// seconds after 1970-01-01T00:00:00Z, or `None` where `secs` lies outside the
/// range of instants that chrono represents.
pub uninterp spec fn utc_civil(secs: int) -> Option<CivilTime>;

/// Hour of the day of an instant: days have 86400 seconds, hours 3600.
pub open spec fn hour_of_day(secs: int) -> int {
    (secs % 86400) / 3600
}

/// Trusted: calls `chrono::DateTime::from_timestamp(secs, 0)` and reads
/// `year()`, `month()` and `hour()` of the instant it returns. The contract
/// claims that the result is a function of `secs` alone (`utc_civil`), that
/// the month is between 1 and 12, and that the hour is the number of whole
/// hours in the seconds left after the whole days, as chrono computes it with
/// `rem_euclid(86_400)`. Year and month are not stated further.
#[verifier::external_body]
pub(crate) fn civil_from_timestamp(secs: i64) -> (r: Option<CivilTime>)
    ensures
        r == utc_civil(secs as int),
        r matches Some(c) ==> c.wf() && c.hour == hour_of_day(secs as int),
{
    DateTime::from_timestamp(secs, 0).map(
        |dt| CivilTime { year: dt.year(), month: dt.month(), hour: dt.hour() },
    )
}

/// Trusted: calls `chrono::Utc::now()` and reads `year()` of it. The result
/// depends on the clock, so nothing is claimed of it.
#[verifier::external_body]
pub(crate) fn current_utc_year() -> i32 {
    Utc::now().year()
}

} // verus!
