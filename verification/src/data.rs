//! The schedule model: lectures, the timetable of a day and of a week.

use crate::time::TimeOfDay;
use vstd::hash_map::StringHashMap;
use vstd::prelude::*;

verus! {

/// One lecture of a day: when it begins, when it ends, and its subject.
#[derive(Debug)]
pub struct Lecture {
    pub begin: TimeOfDay,
    pub end: TimeOfDay,
    pub subject: String,
}

/// What a lecture is, with its subject as a sequence of characters.
pub struct LectureView {
    pub begin: TimeOfDay,
    pub end: TimeOfDay,
    pub subject: Seq<char>,
}

impl View for Lecture {
    type V = LectureView;

    open spec fn view(&self) -> LectureView {
        LectureView { begin: self.begin, end: self.end, subject: self.subject@ }
    }
}

impl Lecture {
    /// Both ends are times of day and the lecture does not end before it begins.
    pub open spec fn wf(self) -> bool {
        &&& self.begin.wf()
        &&& self.end.wf()
        &&& self.begin.not_after(self.end)
    }

    /// Whether `t` lies within the lecture, both ends included.
    pub open spec fn contains(self, t: TimeOfDay) -> bool {
        self.begin.not_after(t) && t.not_after(self.end)
    }

    /// Tests `wf`.
    pub fn is_valid(&self) -> (r: bool)
        ensures
            r == self.wf(),
    {
        self.begin.is_valid() && self.end.is_valid() && self.begin.is_at_or_before(&self.end)
    }
}

impl Clone for Lecture {
    fn clone(&self) -> (r: Self)
        ensures
            r == *self,
    {
        Lecture { begin: self.begin, end: self.end, subject: self.subject.clone() }
    }
}

impl PartialEq for Lecture {
    fn eq(&self, other: &Self) -> (r: bool) {
        self.begin == other.begin && self.end == other.end && self.subject == other.subject
    }
}

impl vstd::std_specs::cmp::PartialEqSpecImpl for Lecture {
    open spec fn obeys_eq_spec() -> bool {
        true
    }

    open spec fn eq_spec(&self, other: &Self) -> bool {
        self@ == other@
    }
}

/// The lectures of one day, in the order in which they are held.
pub type DayTimetable = Vec<Lecture>;

/// The lectures of a week: one day each for Monday to Friday.
pub type Timetable = [DayTimetable; 5];

/// A day that the classifier accepts: it has a lecture, every lecture is
/// well formed, the lectures are sorted by their beginning, and none begins
/// before the one ahead of it has ended.
pub open spec fn day_wf(day: Seq<Lecture>) -> bool {
    &&& day.len() > 0
    &&& forall|i: int| 0 <= i < day.len() ==> (#[trigger] day[i]).wf()
    &&& forall|i: int|
        0 <= i < day.len() - 1 ==> (#[trigger] day[i]).begin.not_after(day[i + 1].begin)
    &&& forall|i: int|
        0 <= i < day.len() - 1 ==> (#[trigger] day[i]).end.not_after(day[i + 1].begin)
}

/// A week in which every day is one that the classifier accepts.
pub open spec fn week_wf(week: Timetable) -> bool {
    forall|d: int| 0 <= d < 5 ==> day_wf((#[trigger] week@[d])@)
}

/// The two colours in which the cell of a subject is drawn. What a colour
/// is, is left to the display.
#[derive(Debug)]
pub struct CellColor<C> {
    pub background: C,
    pub foreground: C,
}

impl<C: Copy> Clone for CellColor<C> {
    fn clone(&self) -> (r: Self)
        ensures
            r == *self,
    {
        *self
    }
}

impl<C: Copy> Copy for CellColor<C> {

}

/// The colours of the subjects, by the subject's name.
#[verifier::reject_recursive_types(C)]
pub struct Theme<C> {
    cells: StringHashMap<CellColor<C>>,
}

impl<C> View for Theme<C> {
    type V = Map<Seq<char>, CellColor<C>>;

    closed spec fn view(&self) -> Map<Seq<char>, CellColor<C>> {
        self.cells@
    }
}

/// The colours that `theme` holds under exactly the name `subject`, and
/// `fallback` where it holds none.
pub open spec fn theme_lookup<C>(
    theme: Map<Seq<char>, CellColor<C>>,
    subject: Seq<char>,
    fallback: CellColor<C>,
) -> CellColor<C> {
    if theme.contains_key(subject) {
        theme[subject]
    } else {
        fallback
    }
}

impl<C: Copy> Theme<C> {
    /// A theme without any subject.
    pub fn new() -> (r: Self)
        ensures
            r@ == Map::<Seq<char>, CellColor<C>>::empty(),
    {
        Theme { cells: StringHashMap::new() }
    }

    /// Gives `subject` the colours `colors`, in place of any it had.
    pub fn insert(&mut self, subject: String, colors: CellColor<C>)
        ensures
            final(self)@ == old(self)@.insert(subject@, colors),
    {
        self.cells.insert(subject, colors);
    }

    /// The colours of `subject`, if the theme has any for it.
    pub fn get(&self, subject: &str) -> (r: Option<CellColor<C>>)
        ensures
            r == if self@.contains_key(subject@) {
                Some(self@[subject@])
            } else {
                None
            },
    {
        match self.cells.get(subject) {
            Some(colors) => Some(*colors),
            None => None,
        }
    }

    /// The colours of `subject`, or `fallback` for a subject that the theme
    /// does not know.
    pub fn lookup(&self, subject: &str, fallback: CellColor<C>) -> (r: CellColor<C>)
        ensures
            r == theme_lookup(self@, subject@, fallback),
    {
        match self.cells.get(subject) {
            Some(colors) => *colors,
            None => fallback,
        }
    }
}

/// Tests `day_wf`.
pub fn day_is_valid(day: &DayTimetable) -> (r: bool)
    ensures
        r == day_wf(day@),
{
    if day.len() == 0 || !day[0].is_valid() {
        return false;
    }
    let mut i: usize = 1;
    while i < day.len()
        invariant
            1 <= i <= day.len(),
            forall|k: int| 0 <= k < i ==> (#[trigger] day[k]).wf(),
            forall|k: int| 0 <= k < i - 1 ==> (#[trigger] day[k]).begin.not_after(day[k + 1].begin),
            forall|k: int| 0 <= k < i - 1 ==> (#[trigger] day[k]).end.not_after(day[k + 1].begin),
        decreases day.len() - i,
    {
        if !day[i].is_valid() || !day[i - 1].begin.is_at_or_before(&day[i].begin) || !day[i
            - 1].end.is_at_or_before(&day[i].begin) {
            proof {
                if day[i as int].wf() {
                    assert(!(day[i - 1].begin.not_after(day[i - 1 + 1].begin) && day[i
                        - 1].end.not_after(day[i - 1 + 1].begin)));
                }
            }
            return false;
        }
        i = i + 1;
    }
    true
}

/// Tests `week_wf`.
pub fn timetable_is_valid(week: &Timetable) -> (r: bool)
    ensures
        r == week_wf(*week),
{
    let mut d: usize = 0;
    while d < 5
        invariant
            0 <= d <= 5,
            forall|k: int| 0 <= k < d ==> day_wf((#[trigger] week@[k])@),
        decreases 5 - d,
    {
        if !day_is_valid(&week[d]) {
            return false;
        }
        d = d + 1;
    }
    true
}

} // verus!
