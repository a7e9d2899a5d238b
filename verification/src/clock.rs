//! Clock readings: the day of the week and the time of day.

use crate::time::TimeOfDay;
use chrono::{Datelike, FixedOffset, TimeZone, Timelike, Utc};
use vstd::prelude::*;

verus! {

/// Seconds by which Korean standard time is ahead of UTC.
pub const KOREAN_OFFSET_SECS: i32 = 32_400;

/// A reading of the clock: the day of the week, counted from Monday as 0,
/// and the time of day.
#[derive(Clone, Copy, Debug, PartialEq, Eq, Structural)]
pub struct Moment {
    pub weekday: u32,
    pub time: TimeOfDay,
}

impl Moment {
    /// The day is one of the seven and the time is a time of day.
    pub open spec fn wf(self) -> bool {
        self.weekday < 7 && self.time.wf()
    }

    /// Whether the day is Saturday or Sunday.
    pub open spec fn on_weekend(self) -> bool {
        self.weekday > 4
    }

    /// Tests `wf`.
    pub fn is_valid(&self) -> (r: bool)
        ensures
            r == self.wf(),
    {
        self.weekday < 7 && self.time.is_valid()
    }
}

/// Reads the system clock through chrono, as `Utc::now()` shifted by
/// `FixedOffset::east(east_secs)`, and hands back the weekday
/// (`num_days_from_monday`) and the time of day (`num_seconds_from_midnight`,
/// `nanosecond`) of the reading.
///
/// Believed, not proved: the weekday is below 7 and the time is a time of
/// day outside any leap second, since the system clock counts none. Nothing
/// more is claimed, so two readings may differ in any way. chrono stops the
/// program if the system clock stands before 1970.
#[verifier::external_body]
#[allow(deprecated)]
fn read_clock(east_secs: i32) -> (now: Moment)
    requires
        -86_400 < east_secs < 86_400,
    ensures
        now.wf(),
        !now.time.in_leap_second(),
{
    let now = FixedOffset::east(east_secs).from_utc_datetime(&Utc::now().naive_utc());
    let time = now.time();
    Moment {
        weekday: now.weekday().num_days_from_monday(),
        time: TimeOfDay { secs: time.num_seconds_from_midnight(), frac: time.nanosecond() },
    }
}

/// The present moment on a Korean clock.
pub fn korean_now() -> (now: Moment)
    ensures
        now.wf(),
        !now.time.in_leap_second(),
{
    read_clock(KOREAN_OFFSET_SECS)
}

} // verus!
