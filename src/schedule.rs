//! A term's timetable: its dated weeks, the subjects and teachers it names,
//! and its recurring classes; resolving dates and listing occurrences.

use vstd::prelude::*;
use crate::class::Class;
use crate::time::{Date, Weekday, iso_date_of, weekday_at};

verus! {

#[derive(Debug, Clone, PartialEq, Eq)]
pub struct Subject {
    pub name: String,
}

#[derive(Debug, Clone, PartialEq, Eq)]
pub struct Teacher {
    pub name: String,
}

/// The timetable of a term.
#[derive(Debug)]
pub struct Schedule {
    /// The weeks of the term, each as its dates from Monday to Friday.
    pub weeks: Vec<[Date; 5]>,
    /// Subjects by id.
    pub subjects: Vec<(String, Subject)>,
    /// Teachers by id.
    pub teachers: Vec<(String, Teacher)>,
    /// The recurring classes, in the order they were declared.
    pub schedule: Vec<Class>,
}

/// Why a date could not be placed in the term.
#[derive(Debug, Clone, Copy, PartialEq, Eq, Structural)]
pub enum DateError {
    /// No week of the term holds the date.
    DateNotInTerm,
}

/// Why the weeks of a term could not be read.
#[derive(Debug, Clone, PartialEq, Eq)]
pub enum WeeksError {
    /// A week has this many dates instead of five.
    WrongLength(usize),
    /// This text is no date written `YYYY-MM-DD`.
    InvalidDate(String),
}

/// Whether `d` is the date that `t` writes as `YYYY-MM-DD`.
pub open spec fn date_read_from(t: Seq<char>, d: Date) -> bool {
    iso_date_of(t) == Some((d.spec_year(), d.spec_month(), d.spec_day()))
}

/// Whether every row has five dates and each reads as a date.
pub open spec fn weeks_readable(raw: Seq<Vec<String>>) -> bool {
    forall|i: int|
        0 <= i < raw.len() ==> (#[trigger] raw[i])@.len() == 5 && forall|k: int|
            0 <= k < 5 ==> iso_date_of((#[trigger] raw[i]@[k])@) is Some
}

fn parse_row(row: &Vec<String>) -> (r: Result<[Date; 5], WeeksError>)
    ensures
        r is Ok <==> row@.len() == 5 && forall|k: int| 0 <= k < 5 ==> iso_date_of((#[trigger] row@[k])@) is Some,
        r matches Ok(a) ==> forall|k: int| 0 <= k < 5 ==> date_read_from((#[trigger] row@[k])@, a@[k]),
        r matches Err(WeeksError::WrongLength(n)) ==> n == row@.len() && n != 5,
        r matches Err(WeeksError::InvalidDate(t)) ==> row@.len() == 5 && iso_date_of(t@) is None
            && exists|k: int| 0 <= k < 5 && (#[trigger] row@[k])@ == t@,
{
    if row.len() != 5 {
        return Err(WeeksError::WrongLength(row.len()));
    }
    let mut dates: Vec<Date> = Vec::new();
    let mut k: usize = 0;
    while k < 5
        invariant
            row@.len() == 5,
            0 <= k <= 5,
            dates@.len() == k,
            forall|j: int| 0 <= j < k ==> date_read_from((#[trigger] row@[j])@, dates@[j]),
        decreases 5 - k,
    {
        match Date::parse(row[k].as_str()) {
            Some(d) => dates.push(d),
            None => {
                assert(row@[k as int]@ == row[k as int]@);
                return Err(WeeksError::InvalidDate(row[k].clone()));
            },
        }
        k += 1;
    }
    let a = [dates[0], dates[1], dates[2], dates[3], dates[4]];
    assert forall|k: int| 0 <= k < 5 implies date_read_from((#[trigger] row@[k])@, a@[k]) by {
        assert(a@[k] == dates@[k]);
    }
    Ok(a)
}

/// Reads the weeks of a term, each given as its five dates written
/// `YYYY-MM-DD`.
pub fn parse_weeks(raw: &Vec<Vec<String>>) -> (r: Result<Vec<[Date; 5]>, WeeksError>)
    ensures
        r is Ok <==> weeks_readable(raw@),
        r matches Ok(v) ==> v@.len() == raw@.len() && forall|i: int, k: int|
            0 <= i < raw@.len() && 0 <= k < 5 ==> date_read_from(
                (#[trigger] raw@[i]@[k])@,
                v@[i]@[k],
            ),
        r matches Err(WeeksError::WrongLength(n)) ==> exists|i: int|
            0 <= i < raw@.len() && (#[trigger] raw@[i])@.len() == n && n != 5,
        r matches Err(WeeksError::InvalidDate(t)) ==> iso_date_of(t@) is None && exists|i: int, k: int|
            0 <= i < raw@.len() && 0 <= k < 5 && (#[trigger] raw@[i]@[k])@ == t@,
{
    let mut out: Vec<[Date; 5]> = Vec::new();
    let mut i: usize = 0;
    while i < raw.len()
        invariant
            0 <= i <= raw@.len(),
            out@.len() == i,
            forall|j: int| 0 <= j < i ==> (#[trigger] raw@[j])@.len() == 5 && forall|k: int|
                0 <= k < 5 ==> iso_date_of((#[trigger] raw@[j]@[k])@) is Some,
            forall|j: int, k: int|
                0 <= j < i && 0 <= k < 5 ==> date_read_from((#[trigger] raw@[j]@[k])@, out@[j]@[k]),
        decreases raw@.len() - i,
    {
        match parse_row(&raw[i]) {
            Ok(a) => out.push(a),
            Err(e) => {
                return Err(e);
            },
        }
        i += 1;
    }
    Ok(out)
}

/// Whether week `week` holds `date`.
pub open spec fn week_holds(week: [Date; 5], date: Date) -> bool {
    week@.contains(date)
}

/// The classes among `classes` that take place on `weekday` of week
/// `week_number`, in their order.
pub open spec fn classes_on(classes: Seq<Class>, week_number: int, weekday: Weekday) -> Seq<Class>
    decreases classes.len(),
{
    if classes.len() == 0 {
        classes
    } else {
        classes_on(classes.drop_last(), week_number, weekday) + if classes.last().spec_happens_on(
            week_number,
            weekday,
        ) {
            seq![classes.last()]
        } else {
            Seq::empty()
        }
    }
}

/// The name given to `id` in a list of named entries: that of its first entry.
pub open spec fn name_of(entries: Seq<(Seq<char>, Seq<char>)>, id: Seq<char>) -> Option<Seq<char>>
    decreases entries.len(),
{
    if entries.len() == 0 {
        None
    } else {
        match name_of(entries.drop_last(), id) {
            Some(n) => Some(n),
            None => if entries.last().0 == id {
                Some(entries.last().1)
            } else {
                None
            },
        }
    }
}

pub open spec fn subject_entries(s: Seq<(String, Subject)>) -> Seq<(Seq<char>, Seq<char>)> {
    s.map_values(|e: (String, Subject)| (e.0@, e.1.name@))
}

pub open spec fn teacher_entries(s: Seq<(String, Teacher)>) -> Seq<(Seq<char>, Seq<char>)> {
    s.map_values(|e: (String, Teacher)| (e.0@, e.1.name@))
}

proof fn lemma_name_of_prefix(entries: Seq<(Seq<char>, Seq<char>)>, id: Seq<char>, i: int)
    requires
        0 <= i < entries.len(),
        name_of(entries.subrange(0, i), id) is None,
    ensures
        name_of(entries.subrange(0, i + 1), id) == if entries[i].0 == id {
            Some(entries[i].1)
        } else {
            None
        },
{
    assert(entries.subrange(0, i + 1).drop_last() =~= entries.subrange(0, i));
}

/// The name given to `id`, looked up in order.
pub(crate) fn find_name(entries: &Vec<(String, Subject)>, id: &String) -> (r: Option<String>)
    ensures
        r matches Some(n) ==> name_of(subject_entries(entries@), id@) == Some(n@),
        r is None <==> name_of(subject_entries(entries@), id@) is None,
{
    let ghost all = subject_entries(entries@);
    let mut i: usize = 0;
    while i < entries.len()
        invariant
            0 <= i <= entries@.len(),
            all == subject_entries(entries@),
            name_of(all.subrange(0, i as int), id@) is None,
        decreases entries@.len() - i,
    {
        proof {
            lemma_name_of_prefix(all, id@, i as int);
        }
        if entries[i].0 == *id {
            proof {
                lemma_name_of_extend(all, id@, i as int + 1);
            }
            return Some(entries[i].1.name.clone());
        }
        i += 1;
    }
    assert(all.subrange(0, i as int) =~= all);
    None
}

/// The name given to `id` among teachers, looked up in order.
pub(crate) fn find_teacher(entries: &Vec<(String, Teacher)>, id: &String) -> (r: Option<String>)
    ensures
        r matches Some(n) ==> name_of(teacher_entries(entries@), id@) == Some(n@),
        r is None <==> name_of(teacher_entries(entries@), id@) is None,
{
    let ghost all = teacher_entries(entries@);
    let mut i: usize = 0;
    while i < entries.len()
        invariant
            0 <= i <= entries@.len(),
            all == teacher_entries(entries@),
            name_of(all.subrange(0, i as int), id@) is None,
        decreases entries@.len() - i,
    {
        proof {
            lemma_name_of_prefix(all, id@, i as int);
        }
        if entries[i].0 == *id {
            proof {
                lemma_name_of_extend(all, id@, i as int + 1);
            }
            return Some(entries[i].1.name.clone());
        }
        i += 1;
    }
    assert(all.subrange(0, i as int) =~= all);
    None
}

/// A name found in a prefix of the entries is the name in all of them.
proof fn lemma_name_of_extend(entries: Seq<(Seq<char>, Seq<char>)>, id: Seq<char>, i: int)
    requires
        0 <= i <= entries.len(),
        name_of(entries.subrange(0, i), id) is Some,
    ensures
        name_of(entries, id) == name_of(entries.subrange(0, i), id),
    decreases entries.len() - i,
{
    if i < entries.len() {
        assert(entries.subrange(0, i + 1).drop_last() =~= entries.subrange(0, i));
        lemma_name_of_extend(entries, id, i + 1);
    } else {
        assert(entries.subrange(0, i) =~= entries);
    }
}

impl Schedule {
    /// Week number and weekday of `date`: the first week of the term that
    /// holds it, and the weekday it falls on.
    pub fn get_day(&self, date: Date) -> (r: Result<(usize, Weekday), DateError>)
        ensures
            r is Err <==> forall|j: int| 0 <= j < self.weeks@.len() ==> !week_holds(self.weeks@[j], date),
            r matches Ok((n, wd)) ==> {
                &&& 1 <= n <= self.weeks@.len()
                &&& week_holds(self.weeks@[n - 1], date)
                &&& forall|j: int| 0 <= j < n - 1 ==> !week_holds(self.weeks@[j], date)
                &&& wd == date.spec_weekday()
            },
    {
        let mut i: usize = 0;
        while i < self.weeks.len()
            invariant
                0 <= i <= self.weeks@.len(),
                forall|j: int| 0 <= j < i ==> !week_holds(self.weeks@[j], date),
            decreases self.weeks@.len() - i,
        {
            let week = &self.weeks[i];
            let mut k: usize = 0;
            while k < 5
                invariant
                    0 <= i < self.weeks@.len() <= usize::MAX,
                    forall|j: int| 0 <= j < i ==> !week_holds(self.weeks@[j], date),
                    0 <= k <= 5,
                    *week == self.weeks@[i as int],
                    forall|m: int| 0 <= m < k ==> week@[m] != date,
                decreases 5 - k,
            {
                if week[k] == date {
                    assert(week@[k as int] == date);
                    return Ok((i + 1, date.weekday()));
                }
                k += 1;
            }
            assert(!week_holds(*week, date));
            i += 1;
        }
        Err(DateError::DateNotInTerm)
    }

    /// The classes that take place on `weekday` of week `week_number`, in
    /// their declared order.
    pub fn get_classes_on(&self, week_number: usize, weekday: Weekday) -> (r: Vec<&Class>)
        requires
            week_number >= 1,
        ensures
            r@.map_values(|c: &Class| *c) == classes_on(self.schedule@, week_number as int, weekday),
    {
        let mut out: Vec<&Class> = Vec::new();
        let mut i: usize = 0;
        while i < self.schedule.len()
            invariant
                0 <= i <= self.schedule@.len(),
                week_number >= 1,
                out@.map_values(|c: &Class| *c) == classes_on(
                    self.schedule@.subrange(0, i as int),
                    week_number as int,
                    weekday,
                ),
            decreases self.schedule@.len() - i,
        {
            let c = &self.schedule[i];
            assert(self.schedule@.subrange(0, i + 1).drop_last() =~= self.schedule@.subrange(
                0,
                i as int,
            ));
            if c.happens_on(week_number, weekday) {
                out.push(c);
            }
            assert(out@.map_values(|c: &Class| *c) =~= classes_on(
                self.schedule@.subrange(0, i + 1),
                week_number as int,
                weekday,
            ));
            i += 1;
        }
        assert(self.schedule@.subrange(0, i as int) =~= self.schedule@);
        out
    }

    /// The slots of the term whose date does not fall on the weekday of its
    /// position (Monday first), as (week index, day index), in order.
    pub fn weekday_mismatches(&self) -> (r: Vec<(usize, usize)>)
        ensures
            forall|k: int|
                0 <= k < r@.len() ==> {
                    let (w, d) = #[trigger] r@[k];
                    w < self.weeks@.len() && d < 5 && self.weeks@[w as int]@[d as int].spec_weekday()
                        != weekday_at(d as int)
                },
            forall|w: int, d: int|
                0 <= w < self.weeks@.len() && 0 <= d < 5 && self.weeks@[w]@[d].spec_weekday()
                    != weekday_at(d) ==> r@.contains((w as usize, d as usize)),
    {
        let mut out: Vec<(usize, usize)> = Vec::new();
        let mut i: usize = 0;
        while i < self.weeks.len()
            invariant
                0 <= i <= self.weeks@.len(),
                forall|k: int|
                    0 <= k < out@.len() ==> {
                        let (w, d) = #[trigger] out@[k];
                        w < self.weeks@.len() && d < 5
                            && self.weeks@[w as int]@[d as int].spec_weekday() != weekday_at(d as int)
                    },
                forall|w: int, d: int|
                    0 <= w < i && 0 <= d < 5 && self.weeks@[w]@[d].spec_weekday() != weekday_at(d)
                        ==> out@.contains((w as usize, d as usize)),
            decreases self.weeks@.len() - i,
        {
            let mut k: usize = 0;
            while k < 5
                invariant
                    0 <= i < self.weeks@.len(),
                    0 <= k <= 5,
                    forall|m: int|
                        0 <= m < out@.len() ==> {
                            let (w, d) = #[trigger] out@[m];
                            w < self.weeks@.len() && d < 5
                                && self.weeks@[w as int]@[d as int].spec_weekday() != weekday_at(
                                d as int,
                            )
                        },
                    forall|w: int, d: int|
                        0 <= w < self.weeks@.len() && 0 <= d < 5 && (w < i || (w == i && d < k))
                            && self.weeks@[w]@[d].spec_weekday() != weekday_at(d) ==> out@.contains(
                            (w as usize, d as usize),
                        ),
                decreases 5 - k,
            {
                let actual = self.weeks[i][k].weekday();
                let slot = Weekday::from_index(k as u32);
                if actual != slot {
                    let ghost before = out@;
                    out.push((i, k));
                    proof {
                        assert forall|p: (usize, usize)| before.contains(p) implies out@.contains(
                            p,
                        ) by {
                            let j = choose|j: int| 0 <= j < before.len() && before[j] == p;
                            assert(out@[j] == p);
                        }
                        assert(out@[out@.len() - 1] == (i, k));
                    }
                }
                k += 1;
            }
            i += 1;
        }
        out
    }
}

} // verus!
