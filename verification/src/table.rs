//! The grid in which a week is drawn: one row for every five minutes, one
//! column for every day, and in each column the lectures as cells.

use crate::app::{TimeKind, TimeKindView};
use crate::clock::Moment;
use crate::data::{DayTimetable, Lecture, Timetable};
use crate::time::{
    div_towards_zero, minutes_later, seconds_between, TimeOfDay, NANOS_PER_SEC, SECS_PER_DAY,
};
use vstd::prelude::*;

verus! {

/// Minutes from one row of the grid to the next.
pub const ROW_MINUTES: u32 = 5;

/// Width of the border of a cell that is pointed out.
pub const BORDER_HIGHLIGHT: u16 = 3;

/// Width of the border of any other cell.
pub const BORDER_PLAIN: u16 = 1;

/// Whether the week `week` has a lecture at the place `i` of the day `d`.
pub open spec fn has_lecture(week: Timetable, d: int, i: int) -> bool {
    0 <= d < 5 && 0 <= i < week@[d]@.len()
}

/// Whether `t` is the beginning of a lecture of the week and no lecture
/// begins before it.
pub open spec fn is_earliest_begin(week: Timetable, t: TimeOfDay) -> bool {
    &&& exists|d: int, i: int| #[trigger] has_lecture(week, d, i) && week@[d]@[i].begin == t
    &&& forall|d: int, i: int| #[trigger]
        has_lecture(week, d, i) ==> t.not_after(week@[d]@[i].begin)
}

/// Whether `t` is the end of a lecture of the week and no lecture ends
/// after it.
pub open spec fn is_latest_end(week: Timetable, t: TimeOfDay) -> bool {
    &&& exists|d: int, i: int| #[trigger] has_lecture(week, d, i) && week@[d]@[i].end == t
    &&& forall|d: int, i: int| #[trigger] has_lecture(week, d, i) ==> week@[d]@[i].end.not_after(t)
}

/// Whether a lecture of the week begins or ends at `t`.
pub open spec fn is_boundary(week: Timetable, t: TimeOfDay) -> bool {
    exists|d: int, i: int| #[trigger]
        has_lecture(week, d, i) && (week@[d]@[i].begin == t || week@[d]@[i].end == t)
}

/// Whether the place `(d, i)` comes before the place `(day, at)` when the
/// week is read day by day.
pub open spec fn read_before(d: int, i: int, day: int, at: int) -> bool {
    d < day || (d == day && i < at)
}

/// The stretch of the day that the grid has to show: from the earliest
/// beginning of any lecture of the week to the latest end. A week without
/// lectures has none.
pub fn week_span(week: &Timetable) -> (r: Option<(TimeOfDay, TimeOfDay)>)
    ensures
        match r {
            Some((first, last)) => is_earliest_begin(*week, first) && is_latest_end(*week, last),
            None => forall|d: int, i: int| !#[trigger] has_lecture(*week, d, i),
        },
{
    let mut span: Option<(TimeOfDay, TimeOfDay)> = None;
    let mut day: usize = 0;
    while day < 5
        invariant
            0 <= day <= 5,
            match span {
                Some((first, last)) => {
                    &&& exists|d: int, i: int| #[trigger]
                        has_lecture(*week, d, i) && week@[d]@[i].begin == first
                    &&& exists|d: int, i: int| #[trigger]
                        has_lecture(*week, d, i) && week@[d]@[i].end == last
                    &&& forall|d: int, i: int| #[trigger]
                        has_lecture(*week, d, i) && d < day ==> first.not_after(
                            week@[d]@[i].begin,
                        ) && week@[d]@[i].end.not_after(last)
                },
                None => forall|d: int, i: int| !(#[trigger] has_lecture(*week, d, i) && d < day),
            },
        decreases 5 - day,
    {
        let lectures = &week[day];
        let mut at: usize = 0;
        while at < lectures.len()
            invariant
                0 <= day < 5,
                *lectures == week@[day as int],
                0 <= at <= lectures.len(),
                match span {
                    Some((first, last)) => {
                        &&& exists|d: int, i: int| #[trigger]
                            has_lecture(*week, d, i) && week@[d]@[i].begin == first
                        &&& exists|d: int, i: int| #[trigger]
                            has_lecture(*week, d, i) && week@[d]@[i].end == last
                        &&& forall|d: int, i: int| #[trigger]
                            has_lecture(*week, d, i) && read_before(d, i, day as int, at as int)
                                ==> first.not_after(week@[d]@[i].begin)
                                && week@[d]@[i].end.not_after(last)
                    },
                    None => forall|d: int, i: int|
                        !(#[trigger] has_lecture(*week, d, i) && read_before(
                            d,
                            i,
                            day as int,
                            at as int,
                        )),
                },
            decreases lectures.len() - at,
        {
            let begin = lectures[at].begin;
            let end = lectures[at].end;
            assert(has_lecture(*week, day as int, at as int));
            span = match span {
                Some((first, last)) => Some(
                    (
                        if begin.is_before(&first) {
                            begin
                        } else {
                            first
                        },
                        if last.is_before(&end) {
                            end
                        } else {
                            last
                        },
                    ),
                ),
                None => Some((begin, end)),
            };
            at = at + 1;
        }
        day = day + 1;
    }
    span
}

/// Tests `is_boundary`: whether the row at `t` carries the time as its
/// label.
pub fn shows_time(week: &Timetable, t: &TimeOfDay) -> (r: bool)
    ensures
        r == is_boundary(*week, *t),
{
    let mut day: usize = 0;
    while day < 5
        invariant
            0 <= day <= 5,
            forall|d: int, i: int| #[trigger]
                has_lecture(*week, d, i) && d < day ==> week@[d]@[i].begin != *t && week@[d]@[i].end
                    != *t,
        decreases 5 - day,
    {
        let lectures = &week[day];
        let mut at: usize = 0;
        while at < lectures.len()
            invariant
                0 <= day < 5,
                *lectures == week@[day as int],
                0 <= at <= lectures.len(),
                forall|d: int, i: int| #[trigger]
                    has_lecture(*week, d, i) && read_before(d, i, day as int, at as int)
                        ==> week@[d]@[i].begin != *t && week@[d]@[i].end != *t,
            decreases lectures.len() - at,
        {
            if lectures[at].begin == *t || lectures[at].end == *t {
                assert(has_lecture(*week, day as int, at as int));
                return true;
            }
            at = at + 1;
        }
        day = day + 1;
    }
    false
}

/// The time of the row `k` of a grid that starts at `first`: `k` times five
/// minutes on. From the second row on the times lie outside any leap
/// second.
pub open spec fn mark(first: TimeOfDay, k: int) -> TimeOfDay {
    if k == 0 {
        first
    } else {
        TimeOfDay {
            secs: (first.secs + 60 * ROW_MINUTES * k) as u32,
            frac: if first.in_leap_second() {
                (first.frac - NANOS_PER_SEC) as u32
            } else {
                first.frac
            },
        }
    }
}

/// Whether the row `k` of a grid that starts at `first` still lies in the
/// day.
pub open spec fn mark_in_day(first: TimeOfDay, k: int) -> bool {
    0 <= k && first.secs + 60 * ROW_MINUTES * k < SECS_PER_DAY
}

/// The times of the rows of the grid: `first`, and on in steps of five
/// minutes for as long as `last` has not been passed.
///
/// There is no grid where the rows would run past midnight before they
/// pass `last`, which is where `last` lies within the last five minutes
/// that the steps reach in the day.
pub fn five_minute_marks(first: &TimeOfDay, last: &TimeOfDay) -> (r: Option<Vec<TimeOfDay>>)
    requires
        first.wf(),
    ensures
        match r {
            Some(marks) => {
                &&& mark_in_day(*first, marks.len() as int)
                &&& last.precedes(mark(*first, marks.len() as int))
                &&& forall|k: int|
                    0 <= k < marks.len() ==> #[trigger] marks[k] == mark(*first, k)
                        && marks[k].not_after(*last)
            },
            None => forall|k: int| #[trigger]
                mark_in_day(*first, k) ==> mark(*first, k).not_after(*last),
        },
{
    let mut marks: Vec<TimeOfDay> = Vec::new();
    let mut time = *first;
    while time.is_at_or_before(last)
        invariant
            first.wf(),
            time.wf(),
            mark_in_day(*first, marks.len() as int),
            time == mark(*first, marks.len() as int),
            forall|k: int|
                0 <= k < marks.len() ==> #[trigger] marks[k] == mark(*first, k) && marks[k].not_after(
                    *last,
                ),
        decreases SECS_PER_DAY - time.secs,
    {
        marks.push(time);
        if time.secs >= SECS_PER_DAY - 60 * ROW_MINUTES {
            proof {
                assert forall|k: int| #[trigger] mark_in_day(*first, k) implies mark(
                    *first,
                    k,
                ).not_after(*last) by {
                    assert(time.secs == first.secs + 300 * (marks.len() - 1));
                    assert(first.secs + 300 * k < SECS_PER_DAY);
                    assert(marks[k] == mark(*first, k));
                }
            }
            return None;
        }
        time = minutes_later(&time, ROW_MINUTES);
    }
    Some(marks)
}

/// The number of rows that a day of the grid is given room for: one for
/// every whole five minutes from `first` to `last`, and one more.
pub fn rows_per_day(first: &TimeOfDay, last: &TimeOfDay) -> (rows: i64)
    requires
        first.wf(),
        last.wf(),
    ensures
        rows == div_towards_zero(
            div_towards_zero(last.seconds_since(*first), 60),
            ROW_MINUTES as int,
        ) + 1,
{
    proof {
        crate::progress::lemma_span_bounded(*last, *first);
    }
    seconds_between(last, first) / 60 / 5 + 1
}

/// A cell of a day's column, as many rows high as `rows` says.
#[derive(Clone, Copy, Debug, PartialEq, Eq, Structural)]
pub enum Cell {
    /// A stretch without a lecture.
    Gap { rows: u16 },
    /// The lecture at the place `index` of the day.
    Lecture { index: usize, rows: u16 },
}

impl Cell {
    /// The height of the cell in rows.
    pub open spec fn height(self) -> int {
        match self {
            Cell::Gap { rows } => rows as int,
            Cell::Lecture { index: _, rows } => rows as int,
        }
    }
}

/// The heights of the cells `cells`, added up.
pub open spec fn total_height(cells: Seq<Cell>) -> int
    decreases cells.len(),
{
    if cells.len() == 0 {
        0
    } else {
        total_height(cells.drop_last()) + cells.last().height()
    }
}

/// A column while its rows are read from the top: the cells that are
/// closed, whether a lecture is open, the place in the day of the lecture
/// that is open or else awaited, and the rows read since the last cell was
/// closed.
pub struct Column {
    pub cells: Seq<Cell>,
    pub open: bool,
    pub next: usize,
    pub rows: u16,
}

/// The column of which no row has been read.
pub open spec fn column_start() -> Column {
    Column { cells: Seq::empty(), open: false, next: 0, rows: 0 }
}

/// The column `column` of the day `day` after one more row, at the time
/// `time`, has been read.
///
/// A lecture that is open is closed by the first row at or after its end,
/// and that row is the first of the gap that follows. The lecture that is
/// awaited is opened by the first row at or after its beginning, which is
/// the first row of its cell, and a gap that was read before it becomes a
/// cell. Every other row adds to what is being read.
pub open spec fn column_step(day: Seq<Lecture>, column: Column, time: TimeOfDay) -> Column {
    if column.open {
        if day[column.next as int].end.not_after(time) {
            Column {
                cells: column.cells.push(Cell::Lecture { index: column.next, rows: column.rows }),
                open: false,
                next: (column.next + 1) as usize,
                rows: 1,
            }
        } else {
            Column { rows: (column.rows + 1) as u16, ..column }
        }
    } else if column.next < day.len() && day[column.next as int].begin.not_after(time) {
        Column {
            cells: if column.rows > 0 {
                column.cells.push(Cell::Gap { rows: column.rows })
            } else {
                column.cells
            },
            open: true,
            next: column.next,
            rows: 1,
        }
    } else {
        Column { rows: (column.rows + 1) as u16, ..column }
    }
}

/// The column of the day `day` after the rows at the times `marks` have
/// been read, one after the other.
pub open spec fn column_after(day: Seq<Lecture>, marks: Seq<TimeOfDay>) -> Column
    decreases marks.len(),
{
    if marks.len() == 0 {
        column_start()
    } else {
        column_step(day, column_after(day, marks.drop_last()), marks.last())
    }
}

/// The cells of the column of the day `day` in a grid with the rows
/// `marks`. What is still being read after the last row becomes a gap, also
/// where it is a lecture that has not ended by then.
pub open spec fn column_cells(day: Seq<Lecture>, marks: Seq<TimeOfDay>) -> Seq<Cell> {
    let column = column_after(day, marks);
    if column.rows > 0 {
        column.cells.push(Cell::Gap { rows: column.rows })
    } else {
        column.cells
    }
}

/// The cells of the column of the day `day` in a grid with the rows
/// `marks`, from the top. Together they are as high as the grid.
pub fn day_cells(day: &DayTimetable, marks: &Vec<TimeOfDay>) -> (cells: Vec<Cell>)
    requires
        marks.len() <= u16::MAX,
    ensures
        cells@ == column_cells(day@, marks@),
        total_height(cells@) == marks.len(),
{
    let mut cells: Vec<Cell> = Vec::new();
    let mut open = false;
    let mut next: usize = 0;
    let mut rows: u16 = 0;
    let mut at: usize = 0;
    while at < marks.len()
        invariant
            marks.len() <= u16::MAX,
            0 <= at <= marks.len(),
            next <= day.len(),
            open ==> next < day.len(),
            (Column { cells: cells@, open, next, rows }) == column_after(
                day@,
                marks@.take(at as int),
            ),
            total_height(cells@) + rows == at,
            rows <= at,
        decreases marks.len() - at,
    {
        let time = &marks[at];
        proof {
            assert(marks@.take(at + 1).drop_last() =~= marks@.take(at as int));
            assert(marks@.take(at + 1).last() == marks[at as int]);
        }
        let ghost closed = cells@;
        if open {
            if day[next].end.is_at_or_before(time) {
                cells.push(Cell::Lecture { index: next, rows });
                proof {
                    assert(cells@.drop_last() =~= closed);
                }
                open = false;
                next = next + 1;
                rows = 1;
            } else {
                rows = rows + 1;
            }
        } else if next < day.len() && day[next].begin.is_at_or_before(time) {
            if rows > 0 {
                cells.push(Cell::Gap { rows });
                proof {
                    assert(cells@.drop_last() =~= closed);
                }
            }
            open = true;
            rows = 1;
        } else {
            rows = rows + 1;
        }
        at = at + 1;
    }
    proof {
        assert(marks@.take(at as int) =~= marks@);
    }
    let ghost closed = cells@;
    if rows > 0 {
        cells.push(Cell::Gap { rows });
        proof {
            assert(cells@.drop_last() =~= closed);
        }
    }
    cells
}

/// The places in the day of the lectures that the phase `kind` points at:
/// the lecture that is on, or the two on either side of the break. On
/// Saturday and Sunday there is none, whatever the phase.
pub open spec fn rows_pointed_at(now: Moment, kind: TimeKindView) -> Seq<int> {
    if now.on_weekend() {
        seq![]
    } else {
        match kind {
            TimeKindView::Lecture(index, _) => seq![index],
            TimeKindView::FreeTime { prev, next } => seq![prev.0, next.0],
            _ => seq![],
        }
    }
}

/// The lectures of today's column that are pointed out.
pub fn highlighted_rows(now: &Moment, kind: &TimeKind) -> (rows: Vec<usize>)
    ensures
        rows@.map_values(|i: usize| i as int) == rows_pointed_at(*now, kind@),
{
    let mut rows: Vec<usize> = Vec::new();
    if now.weekday <= 4 {
        match kind {
            TimeKind::Lecture(index, _) => {
                rows.push(*index);
            },
            TimeKind::FreeTime { prev, next } => {
                rows.push(prev.0);
                rows.push(next.0);
            },
            _ => {},
        }
    }
    assert(rows@.map_values(|i: usize| i as int) =~= rows_pointed_at(*now, kind@));
    rows
}

/// The width of the border of the cell of the lecture at the place `index`
/// of the day `day`: wide where the day is today and the phase points at
/// the lecture, plain elsewhere.
pub fn border_width(day: usize, index: usize, now: &Moment, kind: &TimeKind) -> (width: u16)
    ensures
        width == if day == now.weekday && rows_pointed_at(*now, kind@).contains(index as int) {
            BORDER_HIGHLIGHT
        } else {
            BORDER_PLAIN
        },
{
    let pointed_at = match kind {
        TimeKind::Lecture(at, _) => *at == index,
        TimeKind::FreeTime { prev, next } => prev.0 == index || next.0 == index,
        _ => false,
    };
    proof {
        let rows = rows_pointed_at(*now, kind@);
        if !now.on_weekend() {
            match kind@ {
                TimeKindView::Lecture(at, _) => {
                    assert(rows[0] == at);
                },
                TimeKindView::FreeTime { prev, next } => {
                    assert(rows[0] == prev.0);
                    assert(rows[1] == next.0);
                },
                _ => {},
            }
        }
    }
    if now.weekday <= 4 && day as u64 == now.weekday as u64 && pointed_at {
        BORDER_HIGHLIGHT
    } else {
        BORDER_PLAIN
    }
}

} // verus!
