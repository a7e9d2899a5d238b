//! The classifier: which phase of the school week a moment falls in, and
//! whether the phase has changed since the moment before.

use crate::app::{TimeKind, TimeKindView};
use crate::clock::Moment;
use crate::data::{day_wf, DayTimetable, Lecture, Timetable};
use crate::time::TimeOfDay;
use vstd::prelude::*;

verus! {

/// The place in `day`, from `from` on, of the first lecture that has not
/// ended before `t`; the length of `day` where every lecture has.
pub open spec fn first_open(day: Seq<Lecture>, t: TimeOfDay, from: int) -> int
    decreases day.len() - from,
{
    if from >= day.len() {
        day.len() as int
    } else if t.not_after(day[from].end) {
        from
    } else {
        first_open(day, t, from + 1)
    }
}

/// The phase of a school day with the lectures `day` at the time `t`.
///
/// Before the first lecture begins it is `BeforeSchool`, after the last one
/// has ended `AfterSchool`. In between, the first lecture that has not ended
/// before `t` decides: if it has begun, `t` is in that lecture; if not, `t`
/// is in the break before it.
pub open spec fn phase_of_day(day: Seq<Lecture>, t: TimeOfDay) -> TimeKindView {
    if t.precedes(day[0].begin) {
        TimeKindView::BeforeSchool { lecture_begin: day[0].begin }
    } else if day[day.len() - 1].end.precedes(t) {
        TimeKindView::AfterSchool
    } else {
        let i = first_open(day, t, 0);
        if day[i].begin.not_after(t) {
            TimeKindView::Lecture(i, day[i]@)
        } else {
            TimeKindView::FreeTime { prev: (i - 1, day[i - 1]@), next: (i, Some(day[i]@)) }
        }
    }
}

/// The phase of the week `week` at the moment `now`.
pub open spec fn phase_at(now: Moment, week: Timetable) -> TimeKindView {
    if now.on_weekend() {
        TimeKindView::Weekends
    } else {
        phase_of_day(week@[now.weekday as int]@, now.time)
    }
}

/// What the classifier asks of a week at the moment `now`: that the day of
/// `now`, unless it is Saturday or Sunday, is one that the classifier
/// accepts. Every moment meets this in a week that is well formed.
pub open spec fn day_known(now: Moment, week: Timetable) -> bool {
    now.on_weekend() || day_wf(week@[now.weekday as int]@)
}

/// Whether a display that showed `previous` and now shows `current` has
/// seen the phase change. The first classification changes nothing.
pub open spec fn transitioned(previous: TimeKindView, current: TimeKindView) -> bool {
    !(previous is Unknown) && previous != current
}

/// In a well-formed day the lectures follow one another: a lecture ends no
/// later than any later one begins, and no later than any later one ends.
pub proof fn lemma_day_ordered(day: Seq<Lecture>, i: int, j: int)
    requires
        day_wf(day),
        0 <= i <= j < day.len(),
    ensures
        day[i].end.not_after(day[j].end),
        i < j ==> day[i].end.not_after(day[j].begin),
    decreases j - i,
{
    if i < j {
        lemma_day_ordered(day, i, j - 1);
        assert(day[j - 1].end.not_after(day[j - 1 + 1].begin));
        assert(day[j].wf());
    }
}

/// `first_open` is the one place at which the lectures that have ended
/// before `t` stop.
pub proof fn lemma_first_open(day: Seq<Lecture>, t: TimeOfDay, from: int, at: int)
    requires
        0 <= from <= at <= day.len(),
        forall|k: int| from <= k < at ==> (#[trigger] day[k]).end.precedes(t),
        at < day.len() ==> t.not_after(day[at].end),
    ensures
        first_open(day, t, from) == at,
    decreases at - from,
{
    if from < at {
        assert(day[from].end.precedes(t));
        lemma_first_open(day, t, from + 1, at);
    }
}

/// What `first_open` finds, said without the scan.
pub proof fn lemma_first_open_bounds(day: Seq<Lecture>, t: TimeOfDay, from: int)
    requires
        0 <= from <= day.len(),
    ensures
        from <= first_open(day, t, from) <= day.len(),
        forall|k: int| from <= k < first_open(day, t, from) ==> (#[trigger] day[k]).end.precedes(t),
        first_open(day, t, from) < day.len() ==> t.not_after(day[first_open(day, t, from)].end),
    decreases day.len() - from,
{
    if from < day.len() && !t.not_after(day[from].end) {
        lemma_first_open_bounds(day, t, from + 1);
    }
}

/// Searches a day for the time `t`, halving the stretch that is left.
///
/// `Ok` holds the place of the first lecture in which `t` lies. `Err` holds
/// the place at which a lecture around `t` would have to be put: that of the
/// first lecture that begins after `t`, or the length of the day.
pub fn locate(day: &DayTimetable, t: &TimeOfDay) -> (r: Result<usize, usize>)
    requires
        day_wf(day@),
    ensures
        match r {
            Ok(i) => i == first_open(day@, *t, 0) && i < day.len() && day[i as int].contains(*t),
            Err(i) => i == first_open(day@, *t, 0) && i <= day.len() && (i < day.len() ==> t.precedes(
                day[i as int].begin,
            )),
        },
{
    let mut low: usize = 0;
    let mut high: usize = day.len();
    while low < high
        invariant
            day_wf(day@),
            0 <= low <= high <= day.len(),
            forall|k: int| 0 <= k < low ==> (#[trigger] day[k]).end.precedes(*t),
            high < day.len() ==> t.not_after(day[high as int].end),
        decreases high - low,
    {
        let mid: usize = low + (high - low) / 2;
        if day[mid].end.is_before(t) {
            proof {
                assert forall|k: int| 0 <= k < mid + 1 implies (#[trigger] day[k]).end.precedes(
                    *t,
                ) by {
                    lemma_day_ordered(day@, k, mid as int);
                }
            }
            low = mid + 1;
        } else {
            high = mid;
        }
    }
    proof {
        lemma_first_open(day@, *t, 0, low as int);
    }
    if low < day.len() && day[low].begin.is_at_or_before(t) {
        Ok(low)
    } else {
        Err(low)
    }
}

/// Classifies the time `t` on a school day with the lectures `day`.
pub fn classify_day(day: &DayTimetable, t: &TimeOfDay) -> (kind: TimeKind)
    requires
        day_wf(day@),
    ensures
        kind@ == phase_of_day(day@, *t),
        kind.wf(),
{
    let last: usize = day.len() - 1;
    if t.is_before(&day[0].begin) {
        TimeKind::BeforeSchool { lecture_begin: day[0].begin }
    } else if day[last].end.is_before(t) {
        TimeKind::AfterSchool
    } else {
        match locate(day, t) {
            Ok(index) => TimeKind::Lecture(index, day[index].clone()),
            Err(index) => {
                proof {
                    lemma_first_open_bounds(day@, *t, 0);
                    if index == 0 {
                        assert(day[0].wf());
                    }
                }
                TimeKind::FreeTime {
                    prev: (index - 1, day[index - 1].clone()),
                    next: (index, Some(day[index].clone())),
                }
            },
        }
    }
}

/// Tests `transitioned`.
pub fn has_transitioned(previous: &TimeKind, current: &TimeKind) -> (r: bool)
    ensures
        r == transitioned(previous@, current@),
{
    *previous != TimeKind::Unknown && *previous != *current
}

/// Classifies the moment `now` against the week `week`, and says whether
/// the phase differs from `previous`, the phase of the moment before.
pub fn classify(now: &Moment, week: &Timetable, previous: &TimeKind) -> (r: (TimeKind, bool))
    requires
        day_known(*now, *week),
    ensures
        r.0@ == phase_at(*now, *week),
        r.0.wf(),
        r.1 == transitioned(previous@, r.0@),
{
    let kind = if now.weekday > 4 {
        TimeKind::Weekends
    } else {
        let day: usize = now.weekday as usize;
        classify_day(&week[day], &now.time)
    };
    let changed = has_transitioned(previous, &kind);
    (kind, changed)
}

/// On a school day, every moment before the first lecture begins is before
/// school, and the phase holds the time at which that lecture begins.
pub proof fn before_first_lecture(now: Moment, week: Timetable)
    requires
        !now.on_weekend(),
        day_wf(week@[now.weekday as int]@),
        now.time.precedes(week@[now.weekday as int]@[0].begin),
    ensures
        phase_at(now, week) == (TimeKindView::BeforeSchool {
            lecture_begin: week@[now.weekday as int]@[0].begin,
        }),
{
}

/// On a school day, every moment after the last lecture has ended is after
/// school.
pub proof fn after_last_lecture(now: Moment, week: Timetable)
    requires
        !now.on_weekend(),
        day_wf(week@[now.weekday as int]@),
        week@[now.weekday as int]@.last().end.precedes(now.time),
    ensures
        phase_at(now, week) == TimeKindView::AfterSchool,
{
    let day = week@[now.weekday as int]@;
    assert(day_wf(day));
    lemma_day_ordered(day, 0, day.len() - 1);
    assert(day[0].wf());
}

/// On a school day, every moment from the beginning of a lecture to its
/// end, both included, is in that lecture, provided that the lecture before
/// it has ended by then. Two lectures may share the instant at which one
/// ends and the next begins; that instant belongs to the one that ends.
pub proof fn within_lecture(now: Moment, week: Timetable, index: int)
    requires
        !now.on_weekend(),
        day_wf(week@[now.weekday as int]@),
        0 <= index < week@[now.weekday as int]@.len(),
        week@[now.weekday as int]@[index].contains(now.time),
        index > 0 ==> week@[now.weekday as int]@[index - 1].end.precedes(now.time),
    ensures
        phase_at(now, week) == TimeKindView::Lecture(index, week@[now.weekday as int]@[index]@),
{
    let day = week@[now.weekday as int]@;
    let t = now.time;
    assert(day_wf(day));
    assert forall|k: int| 0 <= k < index implies (#[trigger] day[k]).end.precedes(t) by {
        lemma_day_ordered(day, k, index - 1);
    }
    lemma_first_open(day, t, 0, index);
    lemma_day_ordered(day, 0, index);
    lemma_day_ordered(day, index, day.len() - 1);
    assert(day[0].wf());
}

/// On a school day, every moment after one lecture has ended and before
/// the next begins is free time between those two.
pub proof fn between_lectures(now: Moment, week: Timetable, index: int)
    requires
        !now.on_weekend(),
        day_wf(week@[now.weekday as int]@),
        0 <= index < week@[now.weekday as int]@.len() - 1,
        week@[now.weekday as int]@[index].end.precedes(now.time),
        now.time.precedes(week@[now.weekday as int]@[index + 1].begin),
    ensures
        phase_at(now, week) == (TimeKindView::FreeTime {
            prev: (index, week@[now.weekday as int]@[index]@),
            next: (index + 1, Some(week@[now.weekday as int]@[index + 1]@)),
        }),
{
    let day = week@[now.weekday as int]@;
    let t = now.time;
    assert(day_wf(day));
    assert forall|k: int| 0 <= k < index + 1 implies (#[trigger] day[k]).end.precedes(t) by {
        lemma_day_ordered(day, k, index);
    }
    assert(day[index + 1].wf());
    lemma_first_open(day, t, 0, index + 1);
    lemma_day_ordered(day, 0, index);
    lemma_day_ordered(day, index + 1, day.len() - 1);
    assert(day[0].wf());
}

/// On Saturday and Sunday every moment is the weekend, whatever the time
/// and whatever the week holds.
pub proof fn weekend_all_day(now: Moment, week: Timetable)
    requires
        now.on_weekend(),
    ensures
        phase_at(now, week) == TimeKindView::Weekends,
{
}

/// The phase is reported as changed unless nothing was classified before
/// or the phase is the one before, place in the day and lecture included.
pub proof fn change_is_reported(previous: TimeKindView, current: TimeKindView)
    ensures
        previous is Unknown ==> !transitioned(previous, current),
        previous == current ==> !transitioned(previous, current),
        !(previous is Unknown) && previous != current ==> transitioned(previous, current),
{
}

} // verus!
