//! One recurring row of the weekly timetable.

use vstd::prelude::*;
use crate::class_type::ClassType;
use crate::periods::NaiveTimePeriod;
use crate::time::Weekday;
use crate::weeks::Weeks;

verus! {

/// A room in a building.
#[derive(Debug, Clone, PartialEq, Eq)]
pub struct Location {
    pub building: String,
    pub room: String,
}

/// A class that recurs every week on one weekday, possibly restricted to
/// some weeks of the term.
#[derive(Debug)]
pub struct Class {
    /// Id of the subject taught.
    pub subject: String,
    pub class_type: ClassType,
    pub day: Weekday,
    pub time: NaiveTimePeriod,
    pub location: Option<Location>,
    /// Ids of the teachers, in order.
    pub teachers: Option<Vec<String>>,
    /// The weeks the class is held in; every week when absent.
    pub weeks: Option<Weeks>,
}

impl Class {
    /// Whether the class takes place on `weekday` of week `week_number`.
    pub open spec fn spec_happens_on(&self, week_number: int, weekday: Weekday) -> bool {
        &&& self.day == weekday
        &&& (self.weeks matches Some(w) ==> w.spec_happens_in_week(week_number))
    }

    pub fn happens_on(&self, week_number: usize, weekday: Weekday) -> (r: bool)
        requires
            week_number >= 1,
        ensures
            r == self.spec_happens_on(week_number as int, weekday),
    {
        if self.day != weekday {
            return false;
        }
        match &self.weeks {
            Some(weeks) => weeks.happens_in_week(week_number),
            None => true,
        }
    }
}

/// A class never takes place on a weekday other than its own, whatever
/// weeks it is restricted to.
pub proof fn lemma_other_weekday_never(c: Class, week_number: int, weekday: Weekday)
    requires
        c.day != weekday,
    ensures
        !c.spec_happens_on(week_number, weekday),
{
}

} // verus!
