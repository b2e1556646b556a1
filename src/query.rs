//! The ways a user may name a day of the term: a word relative to today,
//! a week and day number (`W3D2`), or a date (`2025-01-08`).

use vstd::prelude::*;
use vstd::string::*;
use crate::schedule::Schedule;
use crate::text::{count_and_first, count_of, first_of, lemma_first_of, str_eq};
use crate::time::{Date, iso_date_of};

verus! {

/// A day named by the user.
#[derive(Debug, Clone, Copy, PartialEq, Eq)]
pub enum DateQuery {
    /// This many days after today (before it, when negative).
    DaysFromToday(i64),
    /// Day `day` (1 to 5, Monday first) of week `week` of the term.
    Slot(usize, usize),
    /// A calendar date.
    On(Date),
}

/// Why a day could not be named or found.
#[derive(Debug, Clone, Copy, PartialEq, Eq, Structural)]
pub enum QueryError {
    /// `W..D..` with more than one `D`.
    BadSlotFormat,
    /// The week number of `W..D..` is no number.
    BadWeekNumber,
    /// The day number of `W..D..` is no number.
    BadDayNumber,
    /// The week number is zero, or the day number is not 1 to 5.
    SlotOutOfRange,
    /// The term has fewer weeks than the week number.
    WeekOutOfRange,
    /// The text is neither a known word, a `W..D..` slot nor a date.
    Unparseable,
}

/// Value of a non-empty string of decimal digits.
pub open spec fn digits_value(d: Seq<char>) -> nat
    decreases d.len(),
{
    if d.len() == 0 {
        0
    } else {
        digits_value(d.drop_last()) * 10 + ((d.last() as u32) - ('0' as u32)) as nat
    }
}

/// The number that `s` writes: an optional `+` and then one or more
/// decimal digits.
pub open spec fn decimal_value(s: Seq<char>) -> Option<nat> {
    let d = if s.len() > 0 && s[0] == '+' {
        s.drop_first()
    } else {
        s
    };
    if d.len() > 0 && forall|i: int| 0 <= i < d.len() ==> '0' <= #[trigger] d[i] <= '9' {
        Some(digits_value(d))
    } else {
        None
    }
}

/// Relies on `str::parse::<usize>`, which reads an optional `+` and then
/// decimal digits, and fails on anything else or on a value that does not
/// fit.
#[verifier::external_body]
fn parse_usize(s: &str) -> (r: Option<usize>)
    ensures
        r is Some <==> (decimal_value(s@) matches Some(v) && v <= usize::MAX),
        r matches Some(v) ==> decimal_value(s@) == Some(v as nat),
{
    s.parse::<usize>().ok()
}

/// Days from today named by a word, if `s` is one.
pub open spec fn keyword_offset(s: Seq<char>) -> Option<int> {
    if s == "today"@ {
        Some(0)
    } else if s == "tomorrow"@ {
        Some(1)
    } else if s == "yesterday"@ {
        Some(-1)
    } else if s == "ereyesterday"@ {
        Some(-2)
    } else if s == "overmorrow"@ {
        Some(2)
    } else {
        None
    }
}

/// Whether `s` is meant as a `W<week>D<day>` slot.
pub open spec fn is_slot_form(s: Seq<char>) -> bool {
    s.len() > 0 && s[0] == 'W' && count_of(s, 'D') > 0
}

/// The slot that the week text `w` and day text `d` name.
pub open spec fn slot_of(w: Seq<char>, d: Seq<char>) -> Result<DateQuery, QueryError> {
    match decimal_value(w) {
        Some(wn) if wn <= usize::MAX => match decimal_value(d) {
            Some(dn) if dn <= usize::MAX => if wn == 0 || dn == 0 || dn > 5 {
                Err(QueryError::SlotOutOfRange)
            } else {
                Ok(DateQuery::Slot(wn as usize, dn as usize))
            },
            _ => Err(QueryError::BadDayNumber),
        },
        _ => Err(QueryError::BadWeekNumber),
    }
}

fn keyword(s: &str) -> (r: Option<i64>)
    ensures
        r matches Some(k) ==> keyword_offset(s@) == Some(k as int),
        r is None <==> keyword_offset(s@) is None,
{
    if str_eq(s, "today") {
        Some(0)
    } else if str_eq(s, "tomorrow") {
        Some(1)
    } else if str_eq(s, "yesterday") {
        Some(-1)
    } else if str_eq(s, "ereyesterday") {
        Some(-2)
    } else if str_eq(s, "overmorrow") {
        Some(2)
    } else {
        None
    }
}

/// Reads the way a user names a day: `today`, `tomorrow`, `yesterday`,
/// `ereyesterday`, `overmorrow`, `W<week>D<day>` (both counted from 1), or
/// a date written `YYYY-MM-DD`.
pub fn parse_date_query(s: &str) -> (r: Result<DateQuery, QueryError>)
    ensures
        keyword_offset(s@) matches Some(k) ==> r == Ok::<DateQuery, QueryError>(
            DateQuery::DaysFromToday(k as i64),
        ),
        keyword_offset(s@) is None && is_slot_form(s@) ==> ({
            let rest = s@.drop_first();
            if count_of(rest, 'D') != 1 {
                r == Err::<DateQuery, QueryError>(QueryError::BadSlotFormat)
            } else {
                r == slot_of(
                    rest.subrange(0, first_of(rest, 'D')),
                    rest.subrange(first_of(rest, 'D') + 1, rest.len() as int),
                )
            }
        }),
        keyword_offset(s@) is None && !is_slot_form(s@) ==> ({
            &&& iso_date_of(s@) is None ==> r == Err::<DateQuery, QueryError>(QueryError::Unparseable)
            &&& iso_date_of(s@) is Some ==> (r matches Ok(DateQuery::On(d)) && iso_date_of(s@) == Some(
                (d.spec_year(), d.spec_month(), d.spec_day()),
            ))
        }),
{
    if let Some(k) = keyword(s) {
        return Ok(DateQuery::DaysFromToday(k));
    }
    let n = s.unicode_len();
    let (d_count, _) = count_and_first(s, 'D');
    if n > 0 && s.get_char(0) == 'W' && d_count > 0 {
        let rest = s.substring_char(1, n);
        assert(rest@ =~= s@.drop_first());
        let (count, pos) = count_and_first(rest, 'D');
        if count != 1 {
            return Err(QueryError::BadSlotFormat);
        }
        proof {
            lemma_first_of(rest@, 'D');
        }
        let week_text = rest.substring_char(0, pos);
        let day_text = rest.substring_char(pos + 1, n - 1);
        let week = match parse_usize(week_text) {
            Some(w) => w,
            None => return Err(QueryError::BadWeekNumber),
        };
        let day = match parse_usize(day_text) {
            Some(d) => d,
            None => return Err(QueryError::BadDayNumber),
        };
        if week == 0 || day == 0 || day > 5 {
            return Err(QueryError::SlotOutOfRange);
        }
        return Ok(DateQuery::Slot(week, day));
    }
    match Date::parse(s) {
        Some(d) => Ok(DateQuery::On(d)),
        None => Err(QueryError::Unparseable),
    }
}

impl Schedule {
    /// The date stored for day `day_no` of week `week_no` (both counted
    /// from 1).
    pub fn slot_date(&self, week_no: usize, day_no: usize) -> (r: Result<Date, QueryError>)
        ensures
            (week_no == 0 || day_no == 0 || day_no > 5) ==> r == Err::<Date, QueryError>(
                QueryError::SlotOutOfRange,
            ),
            !(week_no == 0 || day_no == 0 || day_no > 5) && week_no > self.weeks@.len() ==> r
                == Err::<Date, QueryError>(QueryError::WeekOutOfRange),
            !(week_no == 0 || day_no == 0 || day_no > 5) && week_no <= self.weeks@.len() ==> r
                == Ok::<Date, QueryError>(self.weeks@[week_no - 1]@[day_no - 1]),
    {
        if week_no == 0 || day_no == 0 || day_no > 5 {
            return Err(QueryError::SlotOutOfRange);
        }
        if week_no - 1 >= self.weeks.len() {
            return Err(QueryError::WeekOutOfRange);
        }
        Ok(self.weeks[week_no - 1][day_no - 1])
    }
}

} // verus!
