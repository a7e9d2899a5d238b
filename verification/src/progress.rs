//! The countdown of a phase: how long until it ends, out of how long.

use crate::app::{TimeKind, TimeKindView};
use crate::clock::Moment;
use crate::time::{seconds_between, TimeOfDay};
use vstd::prelude::*;

verus! {

/// No two times of day are further apart than this many seconds, a leap
/// second counted in.
pub const MAX_SPAN: i64 = 86_401;

/// The seconds left of a phase and the seconds that the phase is measured
/// against.
#[derive(Clone, Copy, Debug, PartialEq, Eq, Structural)]
pub struct Countdown {
    pub current: i64,
    pub total: i64,
}

/// The time at which a phase ends, for the phases that count down to one:
/// before school the beginning of the first lecture, in a lecture its end,
/// in free time the beginning of the next lecture.
pub open spec fn countdown_target(kind: TimeKindView) -> Option<TimeOfDay> {
    match kind {
        TimeKindView::BeforeSchool { lecture_begin } => Some(lecture_begin),
        TimeKindView::Lecture(_, lecture) => Some(lecture.end),
        TimeKindView::FreeTime { prev: _, next: (_, Some(lecture)) } => Some(lecture.begin),
        _ => None,
    }
}

/// The time from which a phase is measured: in a lecture its beginning, in
/// free time the end of the lecture before. Before school it is the time at
/// which the display was started, for want of an earlier event in the day.
pub open spec fn countdown_origin(kind: TimeKindView, app_start: Moment) -> TimeOfDay {
    match kind {
        TimeKindView::Lecture(_, lecture) => lecture.begin,
        TimeKindView::FreeTime { prev: (_, lecture), next: _ } => lecture.end,
        _ => app_start.time,
    }
}

/// The countdown of the phase `kind` at the moment `now`: the seconds from
/// `now` to the end of the phase, and those from its origin to its end.
/// Phases without an end in sight have none.
pub open spec fn countdown_of(kind: TimeKindView, now: Moment, app_start: Moment) -> Option<
    (int, int),
> {
    match countdown_target(kind) {
        Some(target) => Some(
            (
                target.seconds_since(now.time),
                target.seconds_since(countdown_origin(kind, app_start)),
            ),
        ),
        None => None,
    }
}

/// The share of a countdown that is over, as a numerator and a denominator
/// that is not zero: what is not left of the total, over the total. A total
/// of zero counts as wholly over.
pub open spec fn completed(current: int, total: int) -> (int, int) {
    if total == 0 {
        (1, 1)
    } else {
        (total - current, total)
    }
}

/// The whole seconds between two times of day stay within `MAX_SPAN`.
pub proof fn lemma_span_bounded(later: TimeOfDay, earlier: TimeOfDay)
    requires
        later.wf(),
        earlier.wf(),
    ensures
        -MAX_SPAN <= later.seconds_since(earlier) <= MAX_SPAN,
{
}

impl Countdown {
    /// Both numbers are differences of two times of day.
    pub open spec fn wf(self) -> bool {
        &&& -MAX_SPAN <= self.current <= MAX_SPAN
        &&& -MAX_SPAN <= self.total <= MAX_SPAN
    }

    /// Tests `wf`.
    pub fn is_valid(&self) -> (r: bool)
        ensures
            r == self.wf(),
    {
        -MAX_SPAN <= self.current && self.current <= MAX_SPAN && -MAX_SPAN <= self.total
            && self.total <= MAX_SPAN
    }

    /// The share of the countdown that is over, as a numerator and a
    /// denominator. The two are equal once nothing is left.
    pub fn completed(&self) -> (r: (i64, i64))
        requires
            self.wf(),
        ensures
            (r.0 as int, r.1 as int) == completed(self.current as int, self.total as int),
            r.1 != 0,
    {
        if self.total == 0 {
            (1, 1)
        } else {
            (self.total - self.current, self.total)
        }
    }
}

/// Splits a number of seconds into whole minutes and the seconds over,
/// both with the sign of the number.
pub fn split_minutes(seconds: i64) -> (r: (i64, i64))
    ensures
        r.0 * 60 + r.1 == seconds,
        -60 < r.1 < 60,
        seconds >= 0 ==> r.1 >= 0,
        seconds <= 0 ==> r.1 <= 0,
{
    (seconds / 60, seconds % 60)
}

/// The countdown that goes with the phase `kind` at the moment `now`, for a
/// display that was started at `app_start`.
pub fn progress(kind: &TimeKind, now: &Moment, app_start: &Moment) -> (r: Option<Countdown>)
    requires
        kind.wf(),
        now.time.wf(),
        app_start.time.wf(),
    ensures
        match r {
            Some(c) => countdown_of(kind@, *now, *app_start) == Some(
                (c.current as int, c.total as int),
            ) && c.wf(),
            None => countdown_of(kind@, *now, *app_start).is_none(),
        },
{
    match kind {
        TimeKind::BeforeSchool { lecture_begin } => {
            proof {
                lemma_span_bounded(*lecture_begin, now.time);
                lemma_span_bounded(*lecture_begin, app_start.time);
            }
            Some(
                Countdown {
                    current: seconds_between(lecture_begin, &now.time),
                    total: seconds_between(lecture_begin, &app_start.time),
                },
            )
        },
        TimeKind::Lecture(_, lecture) => {
            proof {
                lemma_span_bounded(lecture.end, now.time);
                lemma_span_bounded(lecture.end, lecture.begin);
            }
            Some(
                Countdown {
                    current: seconds_between(&lecture.end, &now.time),
                    total: seconds_between(&lecture.end, &lecture.begin),
                },
            )
        },
        TimeKind::FreeTime { prev, next } => match &next.1 {
            Some(lecture) => {
                proof {
                    lemma_span_bounded(lecture.begin, now.time);
                    lemma_span_bounded(lecture.begin, prev.1.end);
                }
                Some(
                    Countdown {
                        current: seconds_between(&lecture.begin, &now.time),
                        total: seconds_between(&lecture.begin, &prev.1.end),
                    },
                )
            },
            None => None,
        },
        _ => None,
    }
}

/// While a phase lasts, the share of its countdown that is over never
/// falls as the clock advances, and the total it is measured against stays
/// as it is.
///
/// This is claimed of totals that are not negative (before school the total
/// is one where the display was started after the first lecture began), and
/// of two moments of which the later has not entered a leap second that the
/// earlier, in the same second, is still ahead of.
pub proof fn progress_never_falls(
    kind: TimeKindView,
    earlier: Moment,
    later: Moment,
    app_start: Moment,
)
    requires
        countdown_target(kind) matches Some(target) && target.wf() && later.time.not_after(target),
        countdown_origin(kind, app_start).wf(),
        earlier.time.wf(),
        later.time.wf(),
        earlier.time.not_after(later.time),
        !(earlier.time.secs == later.time.secs && !earlier.time.in_leap_second()
            && later.time.in_leap_second()),
        countdown_of(kind, earlier, app_start).unwrap().1 >= 0,
    ensures
        ({
            let before = countdown_of(kind, earlier, app_start).unwrap();
            let after = countdown_of(kind, later, app_start).unwrap();
            &&& before.1 == after.1
            &&& completed(before.0, before.1).1 == completed(after.0, after.1).1
            &&& completed(before.0, before.1).1 > 0
            &&& completed(before.0, before.1).0 <= completed(after.0, after.1).0
        }),
{
    let target = countdown_target(kind).unwrap();
    assert(target.nanos_since(later.time) <= target.nanos_since(earlier.time));
}

/// At the instant at which a phase ends its countdown is wholly over: the
/// share that is over has its numerator equal to its denominator.
pub proof fn progress_whole_at_end(kind: TimeKindView, now: Moment, app_start: Moment)
    requires
        countdown_target(kind) == Some(now.time),
    ensures
        ({
            let at_end = countdown_of(kind, now, app_start).unwrap();
            &&& at_end.0 == 0
            &&& completed(at_end.0, at_end.1).0 == completed(at_end.0, at_end.1).1
        }),
{
}

} // verus!
