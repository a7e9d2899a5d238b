//! Times of day, held as plain integers, and the arithmetic on them.

use chrono::{NaiveTime, TimeDelta, Timelike};
use vstd::prelude::*;

verus! {

/// Seconds in a day.
pub const SECS_PER_DAY: u32 = 86_400;

/// Nanoseconds in a second.
pub const NANOS_PER_SEC: u32 = 1_000_000_000;

/// A time of day: whole seconds since midnight and the nanoseconds past them.
///
/// A leap second is written as the second before it (one whose number within
/// the minute is 59) with `frac` at or above one second, so `frac` may reach
/// just under two seconds there and nowhere else.
#[derive(Clone, Copy, Debug, PartialEq, Eq, Structural)]
pub struct TimeOfDay {
    pub secs: u32,
    pub frac: u32,
}

impl TimeOfDay {
    /// The pairs of numbers that denote a time of day.
    pub open spec fn wf(self) -> bool {
        &&& self.secs < SECS_PER_DAY
        &&& self.frac < 2 * NANOS_PER_SEC
        &&& (self.frac >= NANOS_PER_SEC ==> self.secs % 60 == 59)
    }

    /// Whether this time lies inside a leap second.
    pub open spec fn in_leap_second(self) -> bool {
        self.frac >= NANOS_PER_SEC
    }

    /// Strictly earlier: by the second first, by the fraction within one second.
    pub open spec fn precedes(self, other: TimeOfDay) -> bool {
        self.secs < other.secs || (self.secs == other.secs && self.frac < other.frac)
    }

    /// Earlier or the same instant.
    pub open spec fn not_after(self, other: TimeOfDay) -> bool {
        self.precedes(other) || self == other
    }

    /// The nanoseconds from `earlier` to this time, negative where this time
    /// is the earlier one. A time inside a leap second tells that its second
    /// is followed by one, and that leap second is counted in where the
    /// other time lies in a later second of the day.
    pub open spec fn nanos_since(self, earlier: TimeOfDay) -> int {
        let leap: int = if self.secs > earlier.secs && earlier.in_leap_second() {
            1
        } else if self.secs < earlier.secs && self.in_leap_second() {
            -1
        } else {
            0
        };
        (self.secs - earlier.secs + leap) * NANOS_PER_SEC + (self.frac - earlier.frac)
    }

    /// The whole seconds from `earlier` to this time, rounded towards zero.
    pub open spec fn seconds_since(self, earlier: TimeOfDay) -> int {
        whole_seconds(self.nanos_since(earlier))
    }

    /// This time `minutes` whole minutes on, past midnight into the next
    /// day if need be. A time in a leap second leaves it when any minute is
    /// added: it is taken for the same fraction of the second before.
    pub open spec fn plus_minutes(self, minutes: int) -> TimeOfDay {
        if minutes == 0 {
            self
        } else {
            TimeOfDay {
                secs: ((self.secs + 60 * minutes) % (SECS_PER_DAY as int)) as u32,
                frac: if self.in_leap_second() {
                    (self.frac - NANOS_PER_SEC) as u32
                } else {
                    self.frac
                },
            }
        }
    }

    /// The time `secs` seconds and `frac` nanoseconds after midnight, if
    /// there is one.
    pub fn new(secs: u32, frac: u32) -> (r: Option<TimeOfDay>)
        ensures
            (TimeOfDay { secs, frac }).wf() ==> r == Some(TimeOfDay { secs, frac }),
            !(TimeOfDay { secs, frac }).wf() ==> r.is_none(),
    {
        if secs >= SECS_PER_DAY || frac >= 2 * NANOS_PER_SEC || (frac >= NANOS_PER_SEC && secs % 60
            != 59) {
            None
        } else {
            Some(TimeOfDay { secs, frac })
        }
    }

    /// The time at `hour:min:sec` sharp, if the three numbers name one.
    pub fn from_hms(hour: u32, min: u32, sec: u32) -> (r: Option<TimeOfDay>)
        ensures
            hour < 24 && min < 60 && sec < 60 ==> r == Some(
                TimeOfDay { secs: (hour * 3600 + min * 60 + sec) as u32, frac: 0 },
            ),
            !(hour < 24 && min < 60 && sec < 60) ==> r.is_none(),
            r.is_some() ==> r.unwrap().wf(),
    {
        if hour < 24 && min < 60 && sec < 60 {
            Some(TimeOfDay { secs: hour * 3600 + min * 60 + sec, frac: 0 })
        } else {
            None
        }
    }

    /// Tests `wf`.
    pub fn is_valid(&self) -> (r: bool)
        ensures
            r == self.wf(),
    {
        self.secs < SECS_PER_DAY && self.frac < 2 * NANOS_PER_SEC && (self.frac < NANOS_PER_SEC
            || self.secs % 60 == 59)
    }

    /// Tests `precedes`.
    pub fn is_before(&self, other: &TimeOfDay) -> (r: bool)
        ensures
            r == self.precedes(*other),
    {
        self.secs < other.secs || (self.secs == other.secs && self.frac < other.frac)
    }

    /// Tests `not_after`.
    pub fn is_at_or_before(&self, other: &TimeOfDay) -> (r: bool)
        ensures
            r == self.not_after(*other),
    {
        self.secs < other.secs || (self.secs == other.secs && self.frac <= other.frac)
    }

    /// The hour of the day, from 0 to 23 for a time of day.
    pub fn hour(&self) -> (r: u32)
        ensures
            r == self.secs / 3600,
    {
        self.secs / 3600
    }

    /// The minute of the hour.
    pub fn minute(&self) -> (r: u32)
        ensures
            r == self.secs / 60 % 60,
    {
        self.secs / 60 % 60
    }

    /// The second of the minute. A leap second reads as the second before
    /// it, 59.
    pub fn second(&self) -> (r: u32)
        ensures
            r == self.secs % 60,
    {
        self.secs % 60
    }

    /// Whether the time is past noon, and the hour on a clock face, from 1
    /// to 12.
    pub fn hour12(&self) -> (r: (bool, u32))
        ensures
            r.0 == (self.secs / 3600 >= 12),
            r.1 == if self.secs / 3600 % 12 == 0 {
                12
            } else {
                self.secs / 3600 % 12
            },
    {
        let hour = self.hour();
        let on_face = hour % 12;
        (hour >= 12, if on_face == 0 { 12 } else { on_face })
    }
}

/// The quotient of `a` by a positive `b`, rounded towards zero.
pub open spec fn div_towards_zero(a: int, b: int) -> int {
    if a >= 0 {
        a / b
    } else {
        -((-a) / b)
    }
}

/// The whole seconds in a number of nanoseconds, rounded towards zero.
pub open spec fn whole_seconds(nanos: int) -> int {
    div_towards_zero(nanos, NANOS_PER_SEC as int)
}

/// Subtracts two times of day with chrono: builds both with
/// `NaiveTime::from_num_seconds_from_midnight_opt`, takes
/// `NaiveTime::signed_duration_since` (the `-` of two times) and reads the
/// difference with `TimeDelta::num_seconds`.
///
/// Believed, not proved: the result is `later.seconds_since(*earlier)`, the
/// difference in whole seconds rounded towards zero, with chrono's count of
/// a leap second that lies between the two.
#[verifier::external_body]
pub(crate) fn seconds_between(later: &TimeOfDay, earlier: &TimeOfDay) -> (r: i64)
    requires
        later.wf(),
        earlier.wf(),
    ensures
        r == later.seconds_since(*earlier),
{
    let later = NaiveTime::from_num_seconds_from_midnight_opt(later.secs, later.frac).unwrap();
    let earlier = NaiveTime::from_num_seconds_from_midnight_opt(earlier.secs, earlier.frac).unwrap();
    (later - earlier).num_seconds()
}

/// Adds whole minutes to a time of day with chrono: builds the time with
/// `NaiveTime::from_num_seconds_from_midnight_opt`, adds
/// `TimeDelta::minutes(minutes)` with `+` (`overflowing_add_signed`, which
/// drops the days that the sum runs over), and reads the sum with
/// `num_seconds_from_midnight` and `nanosecond`.
///
/// Believed, not proved: the result is `time.plus_minutes(minutes)`.
#[verifier::external_body]
pub(crate) fn minutes_later(time: &TimeOfDay, minutes: u32) -> (r: TimeOfDay)
    requires
        time.wf(),
    ensures
        r == time.plus_minutes(minutes as int),
{
    let time = NaiveTime::from_num_seconds_from_midnight_opt(time.secs, time.frac).unwrap();
    let later = time + TimeDelta::minutes(i64::from(minutes));
    TimeOfDay { secs: later.num_seconds_from_midnight(), frac: later.nanosecond() }
}

} // verus!
