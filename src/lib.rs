//! A weekly class timetable over an explicitly dated term, and its expansion
//! into calendar events.

pub mod class;
pub mod class_type;
pub mod ical;
pub mod materialize;
pub mod periods;
pub mod query;
pub mod schedule;
pub mod text;
pub mod time;
pub mod weeks;
