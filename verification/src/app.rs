//! The phases of a school day and the state that a display keeps of them.

use crate::classify::{classify, day_known, phase_at, transitioned};
use crate::clock::{korean_now, Moment};
use crate::data::{week_wf, CellColor, Lecture, LectureView, Theme, Timetable};
use crate::progress::{countdown_of, progress, Countdown};
use crate::time::TimeOfDay;
use vstd::prelude::*;

verus! {

/// Where a moment stands in the school week.
#[derive(Debug)]
pub enum TimeKind {
    /// No moment has been classified yet.
    Unknown,
    /// Saturday or Sunday.
    Weekends,
    /// A school day on which the first lecture has yet to begin.
    BeforeSchool { lecture_begin: TimeOfDay },
    /// Within a lecture, given with its place in the day.
    Lecture(usize, Lecture),
    /// Between two lectures, each given with its place in the day.
    FreeTime { prev: (usize, Lecture), next: (usize, Option<Lecture>) },
    /// A school day on which the last lecture has ended.
    AfterSchool,
}

/// What a phase is, with the lectures in it taken by their views.
pub enum TimeKindView {
    Unknown,
    Weekends,
    BeforeSchool { lecture_begin: TimeOfDay },
    Lecture(int, LectureView),
    FreeTime { prev: (int, LectureView), next: (int, Option<LectureView>) },
    AfterSchool,
}

impl View for TimeKind {
    type V = TimeKindView;

    open spec fn view(&self) -> TimeKindView {
        match *self {
            TimeKind::Unknown => TimeKindView::Unknown,
            TimeKind::Weekends => TimeKindView::Weekends,
            TimeKind::BeforeSchool { lecture_begin } => TimeKindView::BeforeSchool {
                lecture_begin,
            },
            TimeKind::Lecture(index, lecture) => TimeKindView::Lecture(index as int, lecture@),
            TimeKind::FreeTime { prev, next } => TimeKindView::FreeTime {
                prev: (prev.0 as int, prev.1@),
                next: (
                    next.0 as int,
                    match next.1 {
                        Some(lecture) => Some(lecture@),
                        None => None,
                    },
                ),
            },
            TimeKind::AfterSchool => TimeKindView::AfterSchool,
        }
    }
}

impl TimeKind {
    /// Every time held in the phase is a time of day.
    pub open spec fn wf(self) -> bool {
        match self {
            TimeKind::BeforeSchool { lecture_begin } => lecture_begin.wf(),
            TimeKind::Lecture(_, lecture) => lecture.wf(),
            TimeKind::FreeTime { prev, next } => prev.1.wf() && match next.1 {
                Some(lecture) => lecture.wf(),
                None => true,
            },
            _ => true,
        }
    }
}

impl TimeKind {
    /// Tests `wf`.
    pub fn is_valid(&self) -> (r: bool)
        ensures
            r == self.wf(),
    {
        match self {
            TimeKind::BeforeSchool { lecture_begin } => lecture_begin.is_valid(),
            TimeKind::Lecture(_, lecture) => lecture.is_valid(),
            TimeKind::FreeTime { prev, next } => prev.1.is_valid() && match &next.1 {
                Some(lecture) => lecture.is_valid(),
                None => true,
            },
            _ => true,
        }
    }
}

impl Clone for TimeKind {
    fn clone(&self) -> (r: Self)
        ensures
            r == *self,
    {
        match self {
            TimeKind::Unknown => TimeKind::Unknown,
            TimeKind::Weekends => TimeKind::Weekends,
            TimeKind::BeforeSchool { lecture_begin } => TimeKind::BeforeSchool {
                lecture_begin: *lecture_begin,
            },
            TimeKind::Lecture(index, lecture) => TimeKind::Lecture(*index, lecture.clone()),
            TimeKind::FreeTime { prev, next } => {
                let next_lecture = match &next.1 {
                    Some(lecture) => Some(lecture.clone()),
                    None => None,
                };
                TimeKind::FreeTime { prev: (prev.0, prev.1.clone()), next: (next.0, next_lecture) }
            },
            TimeKind::AfterSchool => TimeKind::AfterSchool,
        }
    }
}

impl PartialEq for TimeKind {
    fn eq(&self, other: &Self) -> (r: bool) {
        match (self, other) {
            (TimeKind::Unknown, TimeKind::Unknown) => true,
            (TimeKind::Weekends, TimeKind::Weekends) => true,
            (TimeKind::BeforeSchool { lecture_begin: a }, TimeKind::BeforeSchool { lecture_begin: b }) => {
                *a == *b
            },
            (TimeKind::Lecture(i, a), TimeKind::Lecture(j, b)) => *i == *j && *a == *b,
            (TimeKind::FreeTime { prev: pa, next: na }, TimeKind::FreeTime { prev: pb, next: nb }) => {
                let same_next = match (&na.1, &nb.1) {
                    (Some(a), Some(b)) => *a == *b,
                    (None, None) => true,
                    _ => false,
                };
                pa.0 == pb.0 && pa.1 == pb.1 && na.0 == nb.0 && same_next
            },
            (TimeKind::AfterSchool, TimeKind::AfterSchool) => true,
            _ => false,
        }
    }
}

impl vstd::std_specs::cmp::PartialEqSpecImpl for TimeKind {
    open spec fn obeys_eq_spec() -> bool {
        true
    }

    open spec fn eq_spec(&self, other: &Self) -> bool {
        self@ == other@
    }
}

/// What the display is told.
#[derive(Debug)]
pub enum Message {
    /// A second has passed: read the clock and classify anew.
    UpdateTime,
    /// Nothing to do.
    Idle,
}

/// Seconds from one `UpdateTime` to the next.
pub const TICK_SECS: u64 = 1;

/// What a display is started with: the week's lectures and the colours of
/// the subjects.
#[verifier::reject_recursive_types(C)]
pub struct Flags<C> {
    pub timetable: Timetable,
    pub theme: Theme<C>,
}

impl<C: Copy> Default for Flags<C> {
    /// A week without lectures and a theme without subjects.
    fn default() -> (r: Self)
        ensures
            forall|d: int| 0 <= d < 5 ==> (#[trigger] r.timetable@[d])@.len() == 0,
            r.theme@ == Map::<Seq<char>, CellColor<C>>::empty(),
    {
        Flags {
            timetable: [Vec::new(), Vec::new(), Vec::new(), Vec::new(), Vec::new()],
            theme: Theme::new(),
        }
    }
}

/// The state of a display: the latest reading of the clock, the reading at
/// which the display was started, the schedule and its colours, and the
/// phase that the latest reading fell in.
#[verifier::reject_recursive_types(C)]
pub struct App<C> {
    pub now: Moment,
    pub app_start: Moment,
    pub timetable: Timetable,
    pub theme: Theme<C>,
    pub time_kind: TimeKind,
}

impl<C: Copy> App<C> {
    /// Both readings are moments and every time in the phase is a time of
    /// day.
    pub open spec fn wf(self) -> bool {
        &&& self.now.wf()
        &&& self.app_start.wf()
        &&& self.time_kind.wf()
    }

    /// Tests `wf`.
    pub fn is_valid(&self) -> (r: bool)
        ensures
            r == self.wf(),
    {
        self.now.is_valid() && self.app_start.is_valid() && self.time_kind.is_valid()
    }

    /// A display that starts now, with nothing classified yet.
    pub fn new(flags: Flags<C>) -> (app: Self)
        ensures
            app.timetable == flags.timetable,
            app.theme == flags.theme,
            app.time_kind@ is Unknown,
            app.wf(),
    {
        App {
            now: korean_now(),
            app_start: korean_now(),
            timetable: flags.timetable,
            theme: flags.theme,
            time_kind: TimeKind::Unknown,
        }
    }

    /// The title of the display's window.
    pub fn title(&self) -> (r: String)
        ensures
            r@ == "TimerTable"@,
    {
        "TimerTable".to_owned()
    }

    /// Takes `now` as the latest reading of the clock and classifies it.
    /// The result says whether the phase has changed, which is when the
    /// bell is to ring.
    pub fn tick(&mut self, now: Moment) -> (ring: bool)
        requires
            day_known(now, old(self).timetable),
        ensures
            final(self).now == now,
            final(self).time_kind@ == phase_at(now, old(self).timetable),
            final(self).time_kind.wf(),
            ring == transitioned(old(self).time_kind@, final(self).time_kind@),
            final(self).app_start == old(self).app_start,
            final(self).timetable == old(self).timetable,
            final(self).theme == old(self).theme,
            now.wf() && old(self).app_start.wf() ==> final(self).wf(),
    {
        let (kind, changed) = classify(&now, &self.timetable, &self.time_kind);
        self.now = now;
        self.time_kind = kind;
        changed
    }

    /// Handles a message. `UpdateTime` reads the clock and classifies the
    /// reading, as `tick` does; `Idle` changes nothing. The result says
    /// whether the bell is to ring.
    pub fn update(&mut self, message: Message) -> (ring: bool)
        requires
            message is UpdateTime ==> week_wf(old(self).timetable),
        ensures
            message is Idle ==> !ring && *final(self) == *old(self),
            message is UpdateTime ==> {
                &&& final(self).now.wf()
                &&& !final(self).now.time.in_leap_second()
                &&& final(self).time_kind@ == phase_at(final(self).now, old(self).timetable)
                &&& final(self).time_kind.wf()
                &&& ring == transitioned(old(self).time_kind@, final(self).time_kind@)
            },
            final(self).app_start == old(self).app_start,
            final(self).timetable == old(self).timetable,
            final(self).theme == old(self).theme,
            old(self).wf() ==> final(self).wf(),
    {
        match message {
            Message::UpdateTime => {
                let now = korean_now();
                self.tick(now)
            },
            Message::Idle => false,
        }
    }

    /// The countdown of the phase that the display is in.
    pub fn progress(&self) -> (r: Option<Countdown>)
        requires
            self.wf(),
        ensures
            match r {
                Some(c) => countdown_of(self.time_kind@, self.now, self.app_start) == Some(
                    (c.current as int, c.total as int),
                ) && c.wf(),
                None => countdown_of(self.time_kind@, self.now, self.app_start).is_none(),
            },
    {
        progress(&self.time_kind, &self.now, &self.app_start)
    }
}

} // verus!
