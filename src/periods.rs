//! Wall-clock intervals within a day, read from text such as `9:30-11:00`.

use chrono::Timelike;
use vstd::prelude::*;
use vstd::string::*;
use crate::text::{count_and_first, count_of, first_of, lemma_first_of};
use crate::time::{Date, LocalDateTime, TimeOfDay, spec_is_unique_in};

verus! {

/// A start and an end time of day; the end is not required to follow the start.
#[derive(Debug, Clone, Copy, PartialEq, Eq, Structural)]
pub struct NaiveTimePeriod {
    pub start: TimeOfDay,
    pub end: TimeOfDay,
}

/// Why a time period could not be read; each carries the text at fault.
#[derive(Debug, Clone, PartialEq, Eq)]
pub enum PeriodError {
    /// There is no `-` between the two times.
    MissingSeparator(String),
    /// There is more than one `-`; carries the text before the first one.
    TooManySeparators(String),
    /// The text before the `-` is no time of day.
    InvalidStart(String),
    /// The text after the `-` is no time of day.
    InvalidEnd(String),
}

/// `s` without leading and trailing white space, as `str::trim` leaves it.
pub uninterp spec fn trimmed(s: Seq<char>) -> Seq<char>;

/// Relies on `str::trim`: the text without surrounding white space.
#[verifier::external_body]
fn trim_text<'a>(s: &'a str) -> (r: &'a str)
    ensures
        r@ == trimmed(s@),
{
    s.trim()
}

/// Hour and minute read from `s` by the chrono format `fmt`, if it matches.
pub uninterp spec fn clock_of(s: Seq<char>, fmt: Seq<char>) -> Option<(int, int)>;

/// Relies on chrono's `NaiveTime::parse_from_str`: on success a valid time
/// of day, whose hour is below 24 and minute below 60.
#[verifier::external_body]
fn parse_clock(s: &str, fmt: &str) -> (r: Option<(u32, u32)>)
    ensures
        r is None <==> clock_of(s@, fmt@) is None,
        r matches Some((h, m)) ==> clock_of(s@, fmt@) == Some((h as int, m as int)) && h < 24
            && m < 60,
{
    match chrono::NaiveTime::parse_from_str(s, fmt) {
        Ok(t) => Some((t.hour(), t.minute())),
        Err(_) => None,
    }
}

/// Hour and minute of `s` read as `HH:MM`, else as `H:MM`.
pub open spec fn hour_minute_of(s: Seq<char>) -> Option<(int, int)> {
    match clock_of(s, "%H:%M"@) {
        Some(hm) => Some(hm),
        None => clock_of(s, "%-H:%M"@),
    }
}

/// The text before the first `-`.
pub open spec fn start_part(s: Seq<char>) -> Seq<char> {
    s.subrange(0, first_of(s, '-'))
}

/// The text after the first `-`.
pub open spec fn end_part(s: Seq<char>) -> Seq<char> {
    s.subrange(first_of(s, '-') + 1, s.len() as int)
}

fn hour_minute(s: &str) -> (r: Option<(u32, u32)>)
    ensures
        r matches Some((h, m)) ==> hour_minute_of(trimmed(s@)) == Some((h as int, m as int))
            && h < 24 && m < 60,
        r is None <==> hour_minute_of(trimmed(s@)) is None,
{
    let t = trim_text(s);
    match parse_clock(t, "%H:%M") {
        Some(hm) => Some(hm),
        None => parse_clock(t, "%-H:%M"),
    }
}

impl NaiveTimePeriod {
    pub fn new(start: TimeOfDay, end: TimeOfDay) -> (r: NaiveTimePeriod)
        ensures
            r.start == start,
            r.end == end,
    {
        NaiveTimePeriod { start, end }
    }

    /// The period from `start_hour:start_min` to `end_hour:end_min`, on the
    /// full minute.
    pub fn from_hm_hm(start_hour: u32, start_min: u32, end_hour: u32, end_min: u32) -> (r:
        NaiveTimePeriod)
        requires
            start_hour < 24 && start_min < 60,
            end_hour < 24 && end_min < 60,
        ensures
            r.start.spec_hour() == start_hour && r.start.spec_minute() == start_min
                && r.start.spec_second() == 0,
            r.end.spec_hour() == end_hour && r.end.spec_minute() == end_min
                && r.end.spec_second() == 0,
    {
        let start = TimeOfDay::from_hms(start_hour, start_min, 0).unwrap();
        let end = TimeOfDay::from_hms(end_hour, end_min, 0).unwrap();
        NaiveTimePeriod { start, end }
    }

    /// Signed length of the period in seconds; negative when it ends
    /// before it starts.
    pub fn get_duration(&self) -> (r: i64)
        ensures
            r == self.end.spec_seconds() - self.start.spec_seconds(),
    {
        self.end.seconds_since_midnight() as i64 - self.start.seconds_since_midnight() as i64
    }

    /// The period on `day`, bound to the time zone named `tz`; `None` when
    /// no zone has that name or either end names no single instant there.
    pub fn on_day(&self, day: Date, tz: &str) -> (r: Option<(LocalDateTime, LocalDateTime)>)
        ensures
            r is Some <==> spec_is_unique_in(LocalDateTime { date: day, time: self.start }, tz@)
                == Some(true) && spec_is_unique_in(LocalDateTime { date: day, time: self.end }, tz@)
                == Some(true),
            r matches Some((s, e)) ==> s == (LocalDateTime { date: day, time: self.start }) && e == (
            LocalDateTime { date: day, time: self.end }),
    {
        let start = LocalDateTime { date: day, time: self.start };
        let end = LocalDateTime { date: day, time: self.end };
        match (start.is_unique_in(tz), end.is_unique_in(tz)) {
            (Some(true), Some(true)) => Some((start, end)),
            _ => None,
        }
    }

    /// Reads a period written `H:MM-H:MM` or `HH:MM-HH:MM`, with optional
    /// white space around either time. Seconds are zero.
    pub fn parse(s: &str) -> (r: Result<NaiveTimePeriod, PeriodError>)
        ensures
            r is Ok <==> count_of(s@, '-') == 1 && hour_minute_of(trimmed(start_part(s@))) is Some
                && hour_minute_of(trimmed(end_part(s@))) is Some,
            count_of(s@, '-') == 0 ==> (r matches Err(PeriodError::MissingSeparator(t)) && t@
                == s@),
            count_of(s@, '-') >= 2 ==> (r matches Err(PeriodError::TooManySeparators(t)) && t@
                == start_part(s@)),
            count_of(s@, '-') == 1 && hour_minute_of(trimmed(start_part(s@))) is None ==> (r matches Err(
                PeriodError::InvalidStart(t),
            ) && t@ == start_part(s@)),
            count_of(s@, '-') == 1 && hour_minute_of(trimmed(start_part(s@))) is Some
                && hour_minute_of(trimmed(end_part(s@))) is None ==> (r matches Err(
                PeriodError::InvalidEnd(t),
            ) && t@ == end_part(s@)),
            r matches Ok(p) ==> hour_minute_of(trimmed(start_part(s@))) == Some(
                (p.start.spec_hour(), p.start.spec_minute()),
            ) && hour_minute_of(trimmed(end_part(s@))) == Some(
                (p.end.spec_hour(), p.end.spec_minute()),
            ) && p.start.spec_second() == 0 && p.end.spec_second() == 0,
    {
        let n = s.unicode_len();
        let (dashes, pos) = count_and_first(s, '-');
        if dashes == 0 {
            let mut t = String::new();
            t.append(s);
            return Err(PeriodError::MissingSeparator(t));
        }
        proof {
            lemma_first_of(s@, '-');
        }
        let start_text = s.substring_char(0, pos);
        let end_text = s.substring_char(pos + 1, n);
        if dashes > 1 {
            let mut t = String::new();
            t.append(start_text);
            return Err(PeriodError::TooManySeparators(t));
        }
        let start = match hour_minute(start_text) {
            Some((h, m)) => TimeOfDay::from_hms(h, m, 0).unwrap(),
            None => {
                let mut t = String::new();
                t.append(start_text);
                return Err(PeriodError::InvalidStart(t));
            },
        };
        let end = match hour_minute(end_text) {
            Some((h, m)) => TimeOfDay::from_hms(h, m, 0).unwrap(),
            None => {
                let mut t = String::new();
                t.append(end_text);
                return Err(PeriodError::InvalidEnd(t));
            },
        };
        Ok(NaiveTimePeriod { start, end })
    }
}

} // verus!
