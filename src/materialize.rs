//! Expansion of a schedule into concrete calendar events: one per class and
//! dated slot of the term on which the class takes place.

use vstd::prelude::*;
use vstd::string::*;
use crate::class::{Class, Location};
use crate::ical::{EventView, VCalendar, VEvent};
use crate::schedule::{Schedule, find_name, find_teacher, name_of, subject_entries, teacher_entries};
use crate::text::{decimal, decimal_string, padded, padded_string, replace_spaces, underscore_spaces};
use crate::time::{LocalDateTime, spec_is_unique_in};

verus! {

/// Why a schedule could not be turned into events.
#[derive(Debug, Clone, PartialEq, Eq)]
pub enum MaterializeError {
    /// A class names a subject id that the schedule does not define.
    UnknownSubject(String),
    /// A class names a teacher id that the schedule does not define.
    UnknownTeacher(String),
    /// No time zone has the given name.
    UnknownTimeZone(String),
    /// A class's start or end names no single instant in the time zone
    /// (a daylight saving time transition).
    AmbiguousLocalTime,
}

/// A `MaterializeError` as plain values.
pub enum Failure {
    UnknownSubject(Seq<char>),
    UnknownTeacher(Seq<char>),
    UnknownTimeZone(Seq<char>),
    AmbiguousLocalTime,
}

impl View for MaterializeError {
    type V = Failure;

    open spec fn view(&self) -> Failure {
        match self {
            MaterializeError::UnknownSubject(s) => Failure::UnknownSubject(s@),
            MaterializeError::UnknownTeacher(s) => Failure::UnknownTeacher(s@),
            MaterializeError::UnknownTimeZone(s) => Failure::UnknownTimeZone(s@),
            MaterializeError::AmbiguousLocalTime => Failure::AmbiguousLocalTime,
        }
    }
}

/// Product id written into every generated calendar.
pub open spec fn prod_id_text() -> Seq<char> {
    "-//TheChilliPL//Planner//PL"@
}

/// The slot (week index `w`, day index `d`) has, among the first `c`
/// classes, these occurrences, as (week index, day index, class index).
/// Classes are matched against the weekday the slot's date really falls on.
pub open spec fn class_occs(s: Schedule, w: int, d: int, c: int) -> Seq<(usize, usize, usize)>
    decreases c,
{
    if c <= 0 {
        Seq::empty()
    } else {
        class_occs(s, w, d, c - 1) + if s.schedule@[c - 1].spec_happens_on(
            w + 1,
            s.weeks@[w]@[d].spec_weekday(),
        ) {
            seq![(w as usize, d as usize, (c - 1) as usize)]
        } else {
            Seq::empty()
        }
    }
}

/// Occurrences in the first `d` slots of week index `w`.
pub open spec fn day_occs(s: Schedule, w: int, d: int) -> Seq<(usize, usize, usize)>
    decreases d,
{
    if d <= 0 {
        Seq::empty()
    } else {
        day_occs(s, w, d - 1) + class_occs(s, w, d - 1, s.schedule@.len() as int)
    }
}

/// Occurrences in the first `w` weeks.
pub open spec fn week_occs(s: Schedule, w: int) -> Seq<(usize, usize, usize)>
    decreases w,
{
    if w <= 0 {
        Seq::empty()
    } else {
        week_occs(s, w - 1) + day_occs(s, w - 1, 5)
    }
}

/// All occurrences of the term: by week, then slot, then declared class.
pub open spec fn occurrences(s: Schedule) -> Seq<(usize, usize, usize)> {
    week_occs(s, s.weeks@.len() as int)
}

/// Names of the teachers `ids`, in order, or the first id that has none.
pub open spec fn teacher_names(entries: Seq<(Seq<char>, Seq<char>)>, ids: Seq<Seq<char>>) -> Result<
    Seq<Seq<char>>,
    Seq<char>,
>
    decreases ids.len(),
{
    if ids.len() == 0 {
        Ok(Seq::empty())
    } else {
        match teacher_names(entries, ids.drop_last()) {
            Err(id) => Err(id),
            Ok(names) => match name_of(entries, ids.last()) {
                Some(n) => Ok(names.push(n)),
                None => Err(ids.last()),
            },
        }
    }
}

/// Each name on a line of its own, each line started by a line break.
pub open spec fn lines_after(names: Seq<Seq<char>>) -> Seq<char>
    decreases names.len(),
{
    if names.len() == 0 {
        Seq::empty()
    } else {
        lines_after(names.drop_last()) + "\n"@ + names.last()
    }
}

pub open spec fn teacher_ids(c: Class) -> Seq<Seq<char>> {
    match c.teachers {
        Some(v) => v@.map_values(|t: String| t@),
        None => Seq::empty(),
    }
}

/// `<room>/<building>`, or nothing.
pub open spec fn location_text(l: Option<Location>) -> Seq<char> {
    match l {
        Some(l) => l.room@ + "/"@ + l.building@,
        None => Seq::empty(),
    }
}

/// Kind name, subject id with spaces as underscores, weekday, week index and
/// start time as `HHMM`, joined by `-`.
pub open spec fn uid_text(c: Class, w: int) -> Seq<char> {
    c.class_type.spec_name() + "-"@ + underscore_spaces(c.subject@) + "-"@
        + c.day.spec_short_name() + "-"@ + decimal(w as nat) + "-"@ + padded(
        c.time.start.spec_hour() as nat,
        2,
    ) + padded(c.time.start.spec_minute() as nat, 2)
}

/// The event for occurrence `o`, in time zone `tz`, generated at `created`.
pub open spec fn event_for(s: Schedule, o: (usize, usize, usize), tz: Seq<char>, created: LocalDateTime) -> Result<
    EventView,
    Failure,
> {
    let (w, d, c) = o;
    let class = s.schedule@[c as int];
    let date = s.weeks@[w as int]@[d as int];
    let start = LocalDateTime { date, time: class.time.start };
    let end = LocalDateTime { date, time: class.time.end };
    match name_of(subject_entries(s.subjects@), class.subject@) {
        None => Err(Failure::UnknownSubject(class.subject@)),
        Some(subject_name) => match teacher_names(teacher_entries(s.teachers@), teacher_ids(class)) {
            Err(id) => Err(Failure::UnknownTeacher(id)),
            Ok(names) => if spec_is_unique_in(start, tz) is None || spec_is_unique_in(end, tz) is None {
                Err(Failure::UnknownTimeZone(tz))
            } else if spec_is_unique_in(start, tz) == Some(false) || spec_is_unique_in(end, tz) == Some(
                false,
            ) {
                Err(Failure::AmbiguousLocalTime)
            } else {
                Ok(
                    EventView {
                        uid: uid_text(class, w as int),
                        time_zone: tz,
                        created,
                        start,
                        end,
                        summary: class.class_type.spec_emoji() + " "@ + subject_name,
                        description: class.class_type.spec_name() + lines_after(names),
                        location: location_text(class.location),
                    },
                )
            },
        },
    }
}

fn event_uid(class: &Class, w: usize) -> (r: String)
    ensures
        r@ == uid_text(*class, w as int),
{
    let mut uid = String::new();
    uid.append(class.class_type.to_name());
    uid.append("-");
    let subject = replace_spaces(class.subject.as_str());
    uid.append(subject.as_str());
    uid.append("-");
    uid.append(class.day.short_name());
    uid.append("-");
    let week = decimal_string(w as u64);
    uid.append(week.as_str());
    uid.append("-");
    let hour = padded_string(class.time.start.hour() as u64, 2);
    uid.append(hour.as_str());
    let minute = padded_string(class.time.start.minute() as u64, 2);
    uid.append(minute.as_str());
    assert(uid@ =~= uid_text(*class, w as int));
    uid
}

fn location_string(l: &Option<Location>) -> (r: String)
    ensures
        r@ == location_text(*l),
{
    let mut out = String::new();
    if let Some(loc) = l {
        out.append(loc.room.as_str());
        out.append("/");
        out.append(loc.building.as_str());
    }
    assert(out@ =~= location_text(*l));
    out
}

/// The kind name followed by one line per teacher, or the first unknown
/// teacher id.
fn description_string(schedule: &Schedule, class: &Class) -> (r: Result<String, String>)
    ensures
        r matches Ok(t) ==> teacher_names(teacher_entries(schedule.teachers@), teacher_ids(*class)) matches Ok(
            names,
        ) && t@ == class.class_type.spec_name() + lines_after(names),
        r matches Err(id) ==> teacher_names(teacher_entries(schedule.teachers@), teacher_ids(*class))
            == Err::<Seq<Seq<char>>, Seq<char>>(id@),
{
    let ghost entries = teacher_entries(schedule.teachers@);
    let mut out = String::new();
    out.append(class.class_type.to_name());
    if let Some(ids) = &class.teachers {
        let ghost all = teacher_ids(*class);
        assert(all =~= ids@.map_values(|t: String| t@));
        let mut i: usize = 0;
        while i < ids.len()
            invariant
                0 <= i <= ids@.len(),
                all == ids@.map_values(|t: String| t@),
                all == teacher_ids(*class),
                entries == teacher_entries(schedule.teachers@),
                teacher_names(entries, all.subrange(0, i as int)) matches Ok(names) && out@
                    == class.class_type.spec_name() + lines_after(names),
            decreases ids@.len() - i,
        {
            let ghost names = teacher_names(entries, all.subrange(0, i as int))->Ok_0;
            assert(all.subrange(0, i + 1).drop_last() =~= all.subrange(0, i as int));
            match find_teacher(&schedule.teachers, &ids[i]) {
                Some(name) => {
                    out.append("\n");
                    out.append(name.as_str());
                    assert(lines_after(names.push(name@)) =~= lines_after(names) + "\n"@ + name@) by {
                        assert(names.push(name@).drop_last() =~= names);
                    }
                    assert(out@ =~= class.class_type.spec_name() + lines_after(names.push(name@)));
                },
                None => {
                    let id = ids[i].clone();
                    proof {
                        assert(all.subrange(0, i + 1).last() == ids@[i as int]@);
                        assert(teacher_names(entries, all.subrange(0, i + 1)) == Err::<
                            Seq<Seq<char>>,
                            Seq<char>,
                        >(id@));
                        lemma_teacher_error_persists(entries, all, i as int + 1);
                    }
                    return Err(id);
                },
            }
            i += 1;
        }
        assert(all.subrange(0, i as int) =~= all);
    } else {
        assert(out@ =~= class.class_type.spec_name() + lines_after(Seq::empty()));
    }
    Ok(out)
}

/// Once a prefix of the ids has an unknown teacher, so has every longer one.
proof fn lemma_teacher_error_persists(entries: Seq<(Seq<char>, Seq<char>)>, ids: Seq<Seq<char>>, i: int)
    requires
        0 <= i <= ids.len(),
        teacher_names(entries, ids.subrange(0, i)) is Err,
    ensures
        teacher_names(entries, ids) == teacher_names(entries, ids.subrange(0, i)),
    decreases ids.len() - i,
{
    if i < ids.len() {
        assert(ids.subrange(0, i + 1).drop_last() =~= ids.subrange(0, i));
        lemma_teacher_error_persists(entries, ids, i + 1);
    } else {
        assert(ids.subrange(0, i) =~= ids);
    }
}

impl Schedule {
    /// Every (week index, day index, class index) at which a class takes
    /// place, in term order: by week, then slot, then declared class.
    pub fn occurrences(&self) -> (r: Vec<(usize, usize, usize)>)
        ensures
            r@ == occurrences(*self),
    {
        let mut out: Vec<(usize, usize, usize)> = Vec::new();
        let mut w: usize = 0;
        while w < self.weeks.len()
            invariant
                0 <= w <= self.weeks@.len(),
                out@ == week_occs(*self, w as int),
            decreases self.weeks@.len() - w,
        {
            let mut d: usize = 0;
            while d < 5
                invariant
                    0 <= w < self.weeks@.len() <= usize::MAX,
                    0 <= d <= 5,
                    out@ == week_occs(*self, w as int) + day_occs(*self, w as int, d as int),
                decreases 5 - d,
            {
                let weekday = self.weeks[w][d].weekday();
                let mut c: usize = 0;
                while c < self.schedule.len()
                    invariant
                        0 <= w < self.weeks@.len() <= usize::MAX,
                        0 <= d < 5,
                        0 <= c <= self.schedule@.len(),
                        weekday == self.weeks@[w as int]@[d as int].spec_weekday(),
                        out@ == week_occs(*self, w as int) + day_occs(*self, w as int, d as int)
                            + class_occs(*self, w as int, d as int, c as int),
                    decreases self.schedule@.len() - c,
                {
                    let ghost before = out@;
                    if self.schedule[c].happens_on(w + 1, weekday) {
                        out.push((w, d, c));
                    }
                    assert(out@ =~= week_occs(*self, w as int) + day_occs(*self, w as int, d as int)
                        + class_occs(*self, w as int, d as int, c + 1));
                    c += 1;
                }
                assert(out@ =~= week_occs(*self, w as int) + day_occs(*self, w as int, d + 1));
                d += 1;
            }
            assert(out@ =~= week_occs(*self, w + 1));
            w += 1;
        }
        out
    }

    /// The event of one occurrence, in time zone `tz`, generated at `created`.
    pub fn build_event(&self, occ: (usize, usize, usize), tz: &String, created: LocalDateTime) -> (r:
        Result<VEvent, MaterializeError>)
        requires
            occ.0 < self.weeks@.len(),
            occ.1 < 5,
            occ.2 < self.schedule@.len(),
        ensures
            r matches Ok(e) ==> event_for(*self, occ, tz@, created) == Ok::<EventView, Failure>(e@),
            r matches Err(x) ==> event_for(*self, occ, tz@, created) == Err::<EventView, Failure>(x@),
    {
        let (w, d, c) = occ;
        let class = &self.schedule[c];
        let date = self.weeks[w][d];
        let subject_name = match find_name(&self.subjects, &class.subject) {
            Some(n) => n,
            None => return Err(MaterializeError::UnknownSubject(class.subject.clone())),
        };
        let description = match description_string(self, class) {
            Ok(t) => t,
            Err(id) => return Err(MaterializeError::UnknownTeacher(id)),
        };
        let start = LocalDateTime { date, time: class.time.start };
        let end = LocalDateTime { date, time: class.time.end };
        let start_unique = start.is_unique_in(tz.as_str());
        let end_unique = end.is_unique_in(tz.as_str());
        if start_unique.is_none() || end_unique.is_none() {
            return Err(MaterializeError::UnknownTimeZone(tz.clone()));
        }
        if start_unique == Some(false) || end_unique == Some(false) {
            return Err(MaterializeError::AmbiguousLocalTime);
        }
        let mut summary = String::new();
        summary.append(class.class_type.to_emoji());
        summary.append(" ");
        summary.append(subject_name.as_str());
        let e = VEvent {
            uid: event_uid(class, w),
            time_zone: tz.clone(),
            created,
            start,
            end,
            summary,
            description,
            location: location_string(&class.location),
        };
        assert(e@ == event_for(*self, occ, tz@, created)->Ok_0);
        Ok(e)
    }
}

/// Expands the schedule into its events in time zone `tz` (an IANA name),
/// stamped as generated at `created`: one per occurrence, in term order.
/// The first occurrence that cannot be turned into an event ends the run
/// with its error, and no events are returned.
pub fn schedule_to_ical(schedule: &Schedule, tz: &String, created: LocalDateTime) -> (r: Result<
    VCalendar,
    MaterializeError,
>)
    ensures
        r is Ok <==> forall|i: int|
            0 <= i < occurrences(*schedule).len() ==> event_for(
                *schedule,
                #[trigger] occurrences(*schedule)[i],
                tz@,
                created,
            ) is Ok,
        r matches Ok(cal) ==> {
            &&& cal.prod_id@ == prod_id_text()
            &&& cal.version@ == "2.0"@
            &&& cal.events@.len() == occurrences(*schedule).len()
            &&& forall|i: int|
                0 <= i < cal.events@.len() ==> event_for(
                    *schedule,
                    #[trigger] occurrences(*schedule)[i],
                    tz@,
                    created,
                ) == Ok::<EventView, Failure>(cal.events@[i]@)
        },
        r matches Err(x) ==> exists|i: int|
            0 <= i < occurrences(*schedule).len() && event_for(
                *schedule,
                #[trigger] occurrences(*schedule)[i],
                tz@,
                created,
            ) == Err::<EventView, Failure>(x@) && forall|j: int|
                0 <= j < i ==> event_for(*schedule, #[trigger] occurrences(*schedule)[j], tz@, created) is Ok,
{
    let occs = schedule.occurrences();
    let n_weeks = schedule.weeks.len();
    let n_classes = schedule.schedule.len();
    let mut events: Vec<VEvent> = Vec::new();
    let mut i: usize = 0;
    while i < occs.len()
        invariant
            occs@ == occurrences(*schedule),
            n_weeks == schedule.weeks@.len(),
            n_classes == schedule.schedule@.len(),
            0 <= i <= occs@.len(),
            events@.len() == i,
            forall|j: int|
                0 <= j < i ==> event_for(*schedule, #[trigger] occs@[j], tz@, created) == Ok::<
                    EventView,
                    Failure,
                >(events@[j]@),
        decreases occs@.len() - i,
    {
        proof {
            lemma_occurrence_in_range(*schedule, i as int);
        }
        match schedule.build_event(occs[i], tz, created) {
            Ok(e) => {
                events.push(e);
            },
            Err(x) => {
                return Err(x);
            },
        }
        i += 1;
    }
    let mut prod_id = String::new();
    prod_id.append("-//TheChilliPL//Planner//PL");
    let mut version = String::new();
    version.append("2.0");
    Ok(VCalendar { prod_id, version, events })
}

/// Whether `o` names an existing week, slot and class of `s`, and the class
/// takes place in that week on the weekday that the slot's date falls on.
pub open spec fn occurrence_in_range(s: Schedule, o: (usize, usize, usize)) -> bool {
    &&& o.0 < s.weeks@.len()
    &&& o.1 < 5
    &&& o.2 < s.schedule@.len()
    &&& s.schedule@[o.2 as int].spec_happens_on(o.0 + 1, s.weeks@[o.0 as int]@[o.1 as int].spec_weekday())
}

proof fn lemma_concat_in_range(s: Schedule, a: Seq<(usize, usize, usize)>, b: Seq<(usize, usize, usize)>)
    requires
        forall|k: int| 0 <= k < a.len() ==> occurrence_in_range(s, #[trigger] a[k]),
        forall|k: int| 0 <= k < b.len() ==> occurrence_in_range(s, #[trigger] b[k]),
    ensures
        forall|k: int| 0 <= k < (a + b).len() ==> occurrence_in_range(s, #[trigger] (a + b)[k]),
{
    assert forall|k: int| 0 <= k < (a + b).len() implies occurrence_in_range(s, #[trigger] (a + b)[k]) by {
        if k < a.len() {
            assert((a + b)[k] == a[k]);
        } else {
            assert((a + b)[k] == b[k - a.len()]);
        }
    }
}

/// Every occurrence names an existing week, slot and class.
pub proof fn lemma_occurrence_in_range(s: Schedule, i: int)
    requires
        s.weeks@.len() <= usize::MAX,
        s.schedule@.len() <= usize::MAX,
        0 <= i < occurrences(s).len(),
    ensures
        occurrence_in_range(s, occurrences(s)[i]),
{
    lemma_week_occs_in_range(s, s.weeks@.len() as int);
}

proof fn lemma_week_occs_in_range(s: Schedule, w: int)
    requires
        s.weeks@.len() <= usize::MAX,
        s.schedule@.len() <= usize::MAX,
        w <= s.weeks@.len(),
    ensures
        forall|k: int| 0 <= k < week_occs(s, w).len() ==> occurrence_in_range(s, #[trigger] week_occs(s, w)[k]),
    decreases w,
{
    if w > 0 {
        lemma_week_occs_in_range(s, w - 1);
        lemma_day_occs_in_range(s, w - 1, 5);
        lemma_concat_in_range(s, week_occs(s, w - 1), day_occs(s, w - 1, 5));
    }
}

proof fn lemma_day_occs_in_range(s: Schedule, w: int, d: int)
    requires
        s.weeks@.len() <= usize::MAX,
        s.schedule@.len() <= usize::MAX,
        0 <= w < s.weeks@.len(),
        d <= 5,
    ensures
        forall|k: int| 0 <= k < day_occs(s, w, d).len() ==> occurrence_in_range(s, #[trigger] day_occs(s, w, d)[k]),
    decreases d,
{
    if d > 0 {
        lemma_day_occs_in_range(s, w, d - 1);
        lemma_class_occs_in_range(s, w, d - 1, s.schedule@.len() as int);
        lemma_concat_in_range(
            s,
            day_occs(s, w, d - 1),
            class_occs(s, w, d - 1, s.schedule@.len() as int),
        );
    }
}

proof fn lemma_class_occs_in_range(s: Schedule, w: int, d: int, c: int)
    requires
        s.weeks@.len() <= usize::MAX,
        s.schedule@.len() <= usize::MAX,
        0 <= w < s.weeks@.len(),
        0 <= d < 5,
        c <= s.schedule@.len(),
    ensures
        forall|k: int| 0 <= k < class_occs(s, w, d, c).len() ==> occurrence_in_range(s, #[trigger] class_occs(s, w, d, c)[k]),
    decreases c,
{
    if c > 0 {
        lemma_class_occs_in_range(s, w, d, c - 1);
        let last: Seq<(usize, usize, usize)> = if s.schedule@[c - 1].spec_happens_on(
            w + 1,
            s.weeks@[w]@[d].spec_weekday(),
        ) {
            seq![(w as usize, d as usize, (c - 1) as usize)]
        } else {
            Seq::empty()
        };
        assert forall|k: int| 0 <= k < last.len() implies occurrence_in_range(s, #[trigger] last[k]) by {
            assert(last[k] == (w as usize, d as usize, (c - 1) as usize));
        }
        lemma_concat_in_range(s, class_occs(s, w, d, c - 1), last);
    }
}

/// Classes are placed by the weekday that a slot's date really falls on: every
/// occurrence is of a class held on that weekday, in that week, even where
/// the date sits in the slot of another weekday.
pub proof fn lemma_occurrence_on_actual_weekday(s: Schedule, i: int)
    requires
        s.weeks@.len() <= usize::MAX,
        s.schedule@.len() <= usize::MAX,
        0 <= i < occurrences(s).len(),
    ensures
        ({
            let (w, d, c) = occurrences(s)[i];
            &&& s.schedule@[c as int].day == s.weeks@[w as int]@[d as int].spec_weekday()
            &&& s.schedule@[c as int].spec_happens_on(w + 1, s.weeks@[w as int]@[d as int].spec_weekday())
        }),
{
    lemma_occurrence_in_range(s, i);
}

/// An occurrence of a class whose subject id the schedule does not define
/// yields the unknown-subject error, so the whole expansion fails.
pub proof fn lemma_unknown_subject_fails(s: Schedule, i: int, tz: Seq<char>, created: LocalDateTime)
    requires
        0 <= i < occurrences(s).len(),
        name_of(subject_entries(s.subjects@), s.schedule@[occurrences(s)[i].2 as int].subject@) is None,
    ensures
        event_for(s, occurrences(s)[i], tz, created) == Err::<EventView, Failure>(
            Failure::UnknownSubject(s.schedule@[occurrences(s)[i].2 as int].subject@),
        ),
{
}

} // verus!
