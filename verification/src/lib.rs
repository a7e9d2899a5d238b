//! The engine of a classroom timetable display: a week of lectures, the
//! classification of the current moment against it, and the countdown that
//! goes with each phase of the school day.

pub mod app;
pub mod classify;
pub mod clock;
pub mod data;
pub mod progress;
pub mod table;
pub mod time;
