use timertable::app::TimeKind;
use timertable::classify::{classify, classify_day, has_transitioned, locate};
use timertable::clock::Moment;
use timertable::data::{day_is_valid, timetable_is_valid, Lecture, Timetable};
use timertable::time::TimeOfDay;

fn at(hour: u32, min: u32, sec: u32) -> TimeOfDay {
    TimeOfDay::from_hms(hour, min, sec).unwrap()
}

fn lecture(begin: (u32, u32), end: (u32, u32), subject: &str) -> Lecture {
    Lecture { begin: at(begin.0, begin.1, 0), end: at(end.0, end.1, 0), subject: subject.to_string() }
}

fn math() -> Lecture {
    lecture((8, 0), (8, 50), "Math")
}

fn english() -> Lecture {
    lecture((9, 0), (9, 50), "English")
}

fn two_lectures() -> Vec<Lecture> {
    vec![math(), english()]
}

fn week_of(day: Vec<Lecture>) -> Timetable {
    [day.clone(), day.clone(), day.clone(), day.clone(), day]
}

#[test]
fn a_second_before_the_first_lecture_is_before_school() {
    let kind = classify_day(&two_lectures(), &at(7, 59, 59));
    assert_eq!(kind, TimeKind::BeforeSchool { lecture_begin: at(8, 0, 0) });
}

#[test]
fn the_beginning_of_a_lecture_is_in_the_lecture() {
    let kind = classify_day(&two_lectures(), &at(8, 0, 0));
    assert_eq!(kind, TimeKind::Lecture(0, math()));
}

#[test]
fn the_end_of_a_lecture_is_in_the_lecture() {
    let kind = classify_day(&two_lectures(), &at(8, 50, 0));
    assert_eq!(kind, TimeKind::Lecture(0, math()));
}

#[test]
fn a_second_after_a_lecture_is_free_time() {
    let kind = classify_day(&two_lectures(), &at(8, 50, 1));
    assert_eq!(kind, TimeKind::FreeTime { prev: (0, math()), next: (1, Some(english())) });
}

#[test]
fn a_second_after_the_last_lecture_is_after_school() {
    let kind = classify_day(&two_lectures(), &at(9, 50, 1));
    assert_eq!(kind, TimeKind::AfterSchool);
}

#[test]
fn the_second_lecture_is_found_with_its_place() {
    let day = two_lectures();
    assert_eq!(classify_day(&day, &at(9, 0, 0)), TimeKind::Lecture(1, english()));
    assert_eq!(classify_day(&day, &at(9, 25, 0)), TimeKind::Lecture(1, english()));
    assert_eq!(classify_day(&day, &at(9, 50, 0)), TimeKind::Lecture(1, english()));
}

#[test]
fn a_fraction_of_a_second_past_the_end_is_outside_the_lecture() {
    let day = two_lectures();
    let just_after = TimeOfDay::new(8 * 3600 + 50 * 60, 1).unwrap();
    assert_eq!(
        classify_day(&day, &just_after),
        TimeKind::FreeTime { prev: (0, math()), next: (1, Some(english())) }
    );
    let last_instant = TimeOfDay::new(9 * 3600 + 50 * 60, 1).unwrap();
    assert_eq!(classify_day(&day, &last_instant), TimeKind::AfterSchool);
    let before = TimeOfDay::new(8 * 3600 - 1, 999_999_999).unwrap();
    assert_eq!(classify_day(&day, &before), TimeKind::BeforeSchool { lecture_begin: at(8, 0, 0) });
}

#[test]
fn a_single_lecture_has_no_free_time() {
    let day = vec![math()];
    assert_eq!(classify_day(&day, &at(7, 0, 0)), TimeKind::BeforeSchool { lecture_begin: at(8, 0, 0) });
    assert_eq!(classify_day(&day, &at(8, 30, 0)), TimeKind::Lecture(0, math()));
    assert_eq!(classify_day(&day, &at(8, 50, 1)), TimeKind::AfterSchool);
}

#[test]
fn every_lecture_and_every_break_of_a_long_day_is_found() {
    let mut day = Vec::new();
    for i in 0..9u32 {
        day.push(lecture((8 + i, 0), (8 + i, 45), "Lesson"));
    }
    for i in 0..9usize {
        let hour = 8 + i as u32;
        for t in [at(hour, 0, 0), at(hour, 20, 0), at(hour, 45, 0)] {
            assert_eq!(classify_day(&day, &t), TimeKind::Lecture(i, day[i].clone()));
        }
        if i < 8 {
            for t in [at(hour, 45, 1), at(hour, 50, 0), at(hour, 59, 59)] {
                assert_eq!(
                    classify_day(&day, &t),
                    TimeKind::FreeTime { prev: (i, day[i].clone()), next: (i + 1, Some(day[i + 1].clone())) }
                );
            }
        }
    }
}

#[test]
fn a_shared_instant_belongs_to_the_lecture_that_ends() {
    let day = vec![lecture((8, 0), (8, 50), "Math"), lecture((8, 50), (9, 40), "English")];
    assert!(day_is_valid(&day));
    assert_eq!(classify_day(&day, &at(8, 50, 0)), TimeKind::Lecture(0, day[0].clone()));
    assert_eq!(classify_day(&day, &at(8, 50, 1)), TimeKind::Lecture(1, day[1].clone()));
}

#[test]
fn locate_tells_a_lecture_from_a_gap() {
    let day = two_lectures();
    assert_eq!(locate(&day, &at(7, 0, 0)), Err(0));
    assert_eq!(locate(&day, &at(8, 0, 0)), Ok(0));
    assert_eq!(locate(&day, &at(8, 50, 0)), Ok(0));
    assert_eq!(locate(&day, &at(8, 55, 0)), Err(1));
    assert_eq!(locate(&day, &at(9, 0, 0)), Ok(1));
    assert_eq!(locate(&day, &at(9, 50, 0)), Ok(1));
    assert_eq!(locate(&day, &at(10, 0, 0)), Err(2));
}

#[test]
fn saturday_and_sunday_are_the_weekend_at_any_time() {
    let week = week_of(two_lectures());
    for weekday in [5u32, 6] {
        for time in [at(0, 0, 0), at(8, 30, 0), at(23, 59, 59)] {
            let (kind, _) = classify(&Moment { weekday, time }, &week, &TimeKind::Unknown);
            assert_eq!(kind, TimeKind::Weekends);
        }
    }
}

#[test]
fn each_school_day_is_classified_against_its_own_lectures() {
    let week: Timetable = [
        vec![lecture((8, 0), (8, 50), "Mon")],
        vec![lecture((9, 0), (9, 50), "Tue")],
        vec![lecture((10, 0), (10, 50), "Wed")],
        vec![lecture((11, 0), (11, 50), "Thu")],
        vec![lecture((12, 0), (12, 50), "Fri")],
    ];
    assert!(timetable_is_valid(&week));
    for weekday in 0..5u32 {
        let hour = 8 + weekday;
        let now = Moment { weekday, time: at(hour, 10, 0) };
        let (kind, _) = classify(&now, &week, &TimeKind::Unknown);
        assert_eq!(kind, TimeKind::Lecture(0, week[weekday as usize][0].clone()));
    }
}

#[test]
fn the_same_phase_again_is_no_transition() {
    let previous = TimeKind::Lecture(0, math());
    let current = TimeKind::Lecture(0, math());
    assert!(!has_transitioned(&previous, &current));
    let week = week_of(two_lectures());
    let now = Moment { weekday: 0, time: at(8, 10, 0) };
    let (kind, changed) = classify(&now, &week, &previous);
    assert_eq!(kind, TimeKind::Lecture(0, math()));
    assert!(!changed);
}

#[test]
fn from_a_lecture_to_free_time_is_a_transition() {
    let previous = TimeKind::Lecture(0, math());
    let week = week_of(two_lectures());
    let now = Moment { weekday: 2, time: at(8, 50, 1) };
    let (kind, changed) = classify(&now, &week, &previous);
    assert_eq!(kind, TimeKind::FreeTime { prev: (0, math()), next: (1, Some(english())) });
    assert!(changed);
}

#[test]
fn the_first_classification_is_no_transition() {
    let week = week_of(two_lectures());
    let now = Moment { weekday: 4, time: at(8, 10, 0) };
    let (kind, changed) = classify(&now, &week, &TimeKind::Unknown);
    assert_eq!(kind, TimeKind::Lecture(0, math()));
    assert!(!changed);
    assert!(!has_transitioned(&TimeKind::Unknown, &TimeKind::Unknown));
    assert!(!has_transitioned(&TimeKind::Unknown, &TimeKind::AfterSchool));
}

#[test]
fn the_same_lecture_at_another_place_is_another_phase() {
    let previous = TimeKind::Lecture(0, math());
    let current = TimeKind::Lecture(1, math());
    assert!(previous != current);
    assert!(has_transitioned(&previous, &current));
}

#[test]
fn phases_differ_by_any_field() {
    let free = TimeKind::FreeTime { prev: (0, math()), next: (1, Some(english())) };
    let free_again = TimeKind::FreeTime { prev: (0, math()), next: (1, Some(english())) };
    let no_next = TimeKind::FreeTime { prev: (0, math()), next: (1, None) };
    let other_next = TimeKind::FreeTime { prev: (0, math()), next: (1, Some(math())) };
    let other_prev = TimeKind::FreeTime { prev: (0, english()), next: (1, Some(english())) };
    assert!(free == free_again);
    assert!(free != no_next);
    assert!(free != other_next);
    assert!(free != other_prev);
    assert!(TimeKind::Weekends != TimeKind::AfterSchool);
    assert!(
        TimeKind::BeforeSchool { lecture_begin: at(8, 0, 0) }
            != TimeKind::BeforeSchool { lecture_begin: at(8, 0, 1) }
    );
    let renamed = Lecture { subject: "Maths".to_string(), ..math() };
    assert!(TimeKind::Lecture(0, math()) != TimeKind::Lecture(0, renamed));
    assert_eq!(free.clone(), free);
}

#[test]
fn a_day_without_lectures_is_not_valid() {
    assert!(!day_is_valid(&Vec::new()));
    let week: Timetable = [two_lectures(), two_lectures(), Vec::new(), two_lectures(), two_lectures()];
    assert!(!timetable_is_valid(&week));
    assert!(timetable_is_valid(&week_of(two_lectures())));
}

#[test]
fn unsorted_or_overlapping_lectures_are_not_valid() {
    assert!(day_is_valid(&two_lectures()));
    assert!(!day_is_valid(&vec![english(), math()]));
    let overlapping = vec![lecture((8, 0), (9, 10), "Math"), english()];
    assert!(!day_is_valid(&overlapping));
    let backwards = vec![lecture((8, 50), (8, 0), "Math")];
    assert!(!day_is_valid(&backwards));
    let no_such_time = vec![Lecture {
        begin: TimeOfDay { secs: 10, frac: 0 },
        end: TimeOfDay { secs: 86_400, frac: 0 },
        subject: String::new(),
    }];
    assert!(!day_is_valid(&no_such_time));
    let instant = vec![lecture((8, 0), (8, 0), "Bell")];
    assert!(day_is_valid(&instant));
}
