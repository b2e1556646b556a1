//! Calendar dates, times of day and local date-times as plain values, with
//! the few facts about them that come from the chrono and chrono-tz crates.

use chrono::Datelike;
use std::str::FromStr;
use vstd::prelude::*;
use crate::text::{decimal, decimal_string, padded, padded_string};

verus! {

/// Smallest and largest year that a calendar date may have.
pub const MIN_YEAR: i32 = -262143;
pub const MAX_YEAR: i32 = 262142;

/// Days of the week, Monday first.
#[derive(Debug, Clone, Copy, PartialEq, Eq, Structural)]
pub enum Weekday {
    Mon,
    Tue,
    Wed,
    Thu,
    Fri,
    Sat,
    Sun,
}

/// The weekday that is `i` days after Monday (`i < 7`).
pub open spec fn weekday_at(i: int) -> Weekday {
    if i == 0 {
        Weekday::Mon
    } else if i == 1 {
        Weekday::Tue
    } else if i == 2 {
        Weekday::Wed
    } else if i == 3 {
        Weekday::Thu
    } else if i == 4 {
        Weekday::Fri
    } else if i == 5 {
        Weekday::Sat
    } else {
        Weekday::Sun
    }
}

impl Weekday {
    pub open spec fn spec_index(self) -> int {
        match self {
            Weekday::Mon => 0,
            Weekday::Tue => 1,
            Weekday::Wed => 2,
            Weekday::Thu => 3,
            Weekday::Fri => 4,
            Weekday::Sat => 5,
            Weekday::Sun => 6,
        }
    }

    pub open spec fn spec_short_name(self) -> Seq<char> {
        match self {
            Weekday::Mon => "Mon"@,
            Weekday::Tue => "Tue"@,
            Weekday::Wed => "Wed"@,
            Weekday::Thu => "Thu"@,
            Weekday::Fri => "Fri"@,
            Weekday::Sat => "Sat"@,
            Weekday::Sun => "Sun"@,
        }
    }

    /// The weekday `i` days after Monday.
    pub fn from_index(i: u32) -> (r: Weekday)
        requires
            i < 7,
        ensures
            r == weekday_at(i as int),
            r.spec_index() == i,
    {
        if i == 0 {
            Weekday::Mon
        } else if i == 1 {
            Weekday::Tue
        } else if i == 2 {
            Weekday::Wed
        } else if i == 3 {
            Weekday::Thu
        } else if i == 4 {
            Weekday::Fri
        } else if i == 5 {
            Weekday::Sat
        } else {
            Weekday::Sun
        }
    }

    /// Three-letter English name (`"Mon"`).
    pub fn short_name(self) -> (r: &'static str)
        ensures
            r@ == self.spec_short_name(),
    {
        match self {
            Weekday::Mon => "Mon",
            Weekday::Tue => "Tue",
            Weekday::Wed => "Wed",
            Weekday::Thu => "Thu",
            Weekday::Fri => "Fri",
            Weekday::Sat => "Sat",
            Weekday::Sun => "Sun",
        }
    }
}

pub open spec fn is_leap_year(y: int) -> bool {
    (y % 4 == 0 && y % 100 != 0) || y % 400 == 0
}

pub open spec fn days_in_month(y: int, m: int) -> int {
    if m == 2 {
        if is_leap_year(y) {
            29
        } else {
            28
        }
    } else if m == 4 || m == 6 || m == 9 || m == 11 {
        30
    } else {
        31
    }
}

/// Whether year, month and day name a day of the proleptic Gregorian
/// calendar within the supported years.
pub open spec fn valid_ymd(y: int, m: int, d: int) -> bool {
    &&& MIN_YEAR <= y <= MAX_YEAR
    &&& 1 <= m <= 12
    &&& 1 <= d <= days_in_month(y, m)
}

/// Day of the week of a calendar date, as days after Monday.
pub uninterp spec fn weekday_number(y: int, m: int, d: int) -> int;

/// A day of the proleptic Gregorian calendar.
#[derive(Debug, Clone, Copy, PartialEq, Eq, Structural)]
pub struct Date {
    year: i32,
    month: u32,
    day: u32,
}

impl Date {
    #[verifier::type_invariant]
    spec fn valid(self) -> bool {
        valid_ymd(self.year as int, self.month as int, self.day as int)
    }

    pub closed spec fn spec_year(self) -> int {
        self.year as int
    }

    pub closed spec fn spec_month(self) -> int {
        self.month as int
    }

    pub closed spec fn spec_day(self) -> int {
        self.day as int
    }

    /// The weekday that this date falls on.
    pub open spec fn spec_weekday(self) -> Weekday {
        weekday_at(weekday_number(self.spec_year(), self.spec_month(), self.spec_day()))
    }

    /// The date with the given year, month and day, if it exists.
    pub fn from_ymd(year: i32, month: u32, day: u32) -> (r: Option<Date>)
        ensures
            r is Some <==> valid_ymd(year as int, month as int, day as int),
            r matches Some(d) ==> d.spec_year() == year && d.spec_month() == month
                && d.spec_day() == day,
    {
        if year < MIN_YEAR || year > MAX_YEAR || month < 1 || month > 12 || day < 1 {
            return None;
        }
        let leap = (year % 4 == 0 && year % 100 != 0) || year % 400 == 0;
        let last: u32 = if month == 2 {
            if leap {
                29
            } else {
                28
            }
        } else if month == 4 || month == 6 || month == 9 || month == 11 {
            30
        } else {
            31
        };
        if day > last {
            return None;
        }
        Some(Date { year, month, day })
    }

    pub fn year(&self) -> (r: i32)
        ensures
            r == self.spec_year(),
    {
        self.year
    }

    pub fn month(&self) -> (r: u32)
        ensures
            r == self.spec_month(),
    {
        self.month
    }

    pub fn day(&self) -> (r: u32)
        ensures
            r == self.spec_day(),
    {
        self.day
    }

    /// The weekday that this date falls on.
    pub fn weekday(&self) -> (r: Weekday)
        ensures
            r == self.spec_weekday(),
    {
        proof {
            use_type_invariant(self);
        }
        Weekday::from_index(weekday_of(self.year, self.month, self.day))
    }
}

/// Relies on chrono's `NaiveDate::weekday` (through `num_days_from_monday`):
/// the weekday of a valid date, counted from Monday as 0 up to Sunday as 6.
#[verifier::external_body]
fn weekday_of(y: i32, m: u32, d: u32) -> (r: u32)
    requires
        valid_ymd(y as int, m as int, d as int),
    ensures
        r == weekday_number(y as int, m as int, d as int),
        r < 7,
{
    chrono::NaiveDate::from_ymd_opt(y, m, d).unwrap().weekday().num_days_from_monday()
}

/// Calendar date as written by `%Y-%m-%d`, if the text is one.
pub uninterp spec fn iso_date_of(s: Seq<char>) -> Option<(int, int, int)>;

/// Relies on chrono's `NaiveDate::parse_from_str` with the format
/// `%Y-%m-%d`: it yields a valid date or fails.
#[verifier::external_body]
fn parse_iso_date(s: &str) -> (r: Option<(i32, u32, u32)>)
    ensures
        r matches Some((y, m, d)) ==> iso_date_of(s@) == Some((y as int, m as int, d as int))
            && valid_ymd(y as int, m as int, d as int),
        r is None <==> iso_date_of(s@) is None,
{
    match chrono::NaiveDate::parse_from_str(s, "%Y-%m-%d") {
        Ok(d) => Some((d.year(), d.month(), d.day())),
        Err(_) => None,
    }
}

impl Date {
    /// Reads a date written as `YYYY-MM-DD`.
    pub fn parse(s: &str) -> (r: Option<Date>)
        ensures
            r is None <==> iso_date_of(s@) is None,
            r matches Some(d) ==> iso_date_of(s@) == Some(
                (d.spec_year(), d.spec_month(), d.spec_day()),
            ),
    {
        match parse_iso_date(s) {
            Some((y, m, d)) => Some(Date { year: y, month: m, day: d }),
            None => None,
        }
    }
}

/// A wall-clock time of day, to the second.
#[derive(Debug, Clone, Copy, PartialEq, Eq, Structural)]
pub struct TimeOfDay {
    hour: u32,
    minute: u32,
    second: u32,
}

pub open spec fn valid_hms(h: int, m: int, s: int) -> bool {
    0 <= h < 24 && 0 <= m < 60 && 0 <= s < 60
}

impl TimeOfDay {
    #[verifier::type_invariant]
    spec fn valid(self) -> bool {
        valid_hms(self.hour as int, self.minute as int, self.second as int)
    }

    pub closed spec fn spec_hour(self) -> int {
        self.hour as int
    }

    pub closed spec fn spec_minute(self) -> int {
        self.minute as int
    }

    pub closed spec fn spec_second(self) -> int {
        self.second as int
    }

    /// Seconds since midnight.
    pub open spec fn spec_seconds(self) -> int {
        self.spec_hour() * 3600 + self.spec_minute() * 60 + self.spec_second()
    }

    /// The time of day with the given hour, minute and second, if it exists.
    pub fn from_hms(hour: u32, minute: u32, second: u32) -> (r: Option<TimeOfDay>)
        ensures
            r is Some <==> valid_hms(hour as int, minute as int, second as int),
            r matches Some(t) ==> t.spec_hour() == hour && t.spec_minute() == minute
                && t.spec_second() == second,
    {
        if hour < 24 && minute < 60 && second < 60 {
            Some(TimeOfDay { hour, minute, second })
        } else {
            None
        }
    }

    /// Seconds since midnight.
    pub fn seconds_since_midnight(&self) -> (r: u32)
        ensures
            r == self.spec_seconds(),
            r < 86400,
    {
        proof {
            use_type_invariant(self);
        }
        self.hour * 3600 + self.minute * 60 + self.second
    }

    pub fn hour(&self) -> (r: u32)
        ensures
            r == self.spec_hour(),
    {
        self.hour
    }

    pub fn minute(&self) -> (r: u32)
        ensures
            r == self.spec_minute(),
    {
        self.minute
    }

    pub fn second(&self) -> (r: u32)
        ensures
            r == self.spec_second(),
    {
        self.second
    }
}

/// A date and a wall-clock time on it, with no time zone attached.
#[derive(Debug, Clone, Copy, PartialEq, Eq, Structural)]
pub struct LocalDateTime {
    pub date: Date,
    pub time: TimeOfDay,
}

/// The year as `%Y` writes it: four digits at least, with a sign outside
/// the years 0 to 9999.
pub open spec fn year_text(y: int) -> Seq<char> {
    if 0 <= y <= 9999 {
        padded(y as nat, 4)
    } else if y < 0 {
        "-"@ + padded((-y) as nat, 4)
    } else {
        "+"@ + padded(y as nat, 4)
    }
}

/// `YYYYMMDDTHHMMSS`: the date and time written as one compact stamp.
pub open spec fn stamp_text(dt: LocalDateTime) -> Seq<char> {
    year_text(dt.date.spec_year()) + padded(dt.date.spec_month() as nat, 2) + padded(
        dt.date.spec_day() as nat,
        2,
    ) + "T"@ + padded(dt.time.spec_hour() as nat, 2) + padded(dt.time.spec_minute() as nat, 2)
        + padded(dt.time.spec_second() as nat, 2)
}

/// Date-times that can be written as a compact stamp.
pub trait TimeExt {
    /// The stamp of the value.
    spec fn stamp(&self) -> Seq<char>;

    /// Writes the value as a stamp.
    fn to_stamp(&self) -> (r: String)
        ensures
            r@ == self.stamp(),
    ;
}

impl TimeExt for LocalDateTime {
    /// `YYYYMMDDTHHMMSS`.
    open spec fn stamp(&self) -> Seq<char> {
        stamp_text(*self)
    }

    fn to_stamp(&self) -> (r: String) {
        proof {
            use_type_invariant(&self.date);
            use_type_invariant(&self.time);
        }
        let y = self.date.year();
        let mut s = if 0 <= y && y <= 9999 {
            padded_string(y as u64, 4)
        } else if y < 0 {
            let mut s = String::new();
            s.append("-");
            let digits = padded_string((-(y as i64)) as u64, 4);
            s.append(digits.as_str());
            s
        } else {
            let mut s = String::new();
            s.append("+");
            let digits = padded_string(y as u64, 4);
            s.append(digits.as_str());
            s
        };
        let part = padded_string(self.date.month() as u64, 2);
        s.append(part.as_str());
        let part = padded_string(self.date.day() as u64, 2);
        s.append(part.as_str());
        s.append("T");
        let part = padded_string(self.time.hour() as u64, 2);
        s.append(part.as_str());
        let part = padded_string(self.time.minute() as u64, 2);
        s.append(part.as_str());
        let part = padded_string(self.time.second() as u64, 2);
        s.append(part.as_str());
        s
    }
}

/// Whether a wall-clock date-time names exactly one instant in the named
/// time zone; `None` when no time zone has that name.
pub uninterp spec fn unique_local_time(
    tz: Seq<char>,
    y: int,
    mo: int,
    d: int,
    h: int,
    mi: int,
    s: int,
) -> Option<bool>;

/// The same, for a `LocalDateTime`.
pub open spec fn spec_is_unique_in(dt: LocalDateTime, tz: Seq<char>) -> Option<bool> {
    unique_local_time(
        tz,
        dt.date.spec_year(),
        dt.date.spec_month(),
        dt.date.spec_day(),
        dt.time.spec_hour(),
        dt.time.spec_minute(),
        dt.time.spec_second(),
    )
}

/// Relies on chrono-tz's `Tz::from_str` to look the zone up by its IANA
/// name, and on chrono's `and_local_timezone(..).single()`, which is `Some`
/// exactly when the local time maps to one instant in that zone.
#[verifier::external_body]
fn local_time_is_unique(tz: &str, y: i32, mo: u32, d: u32, h: u32, mi: u32, s: u32) -> (r: Option<
    bool,
>)
    requires
        valid_ymd(y as int, mo as int, d as int),
        valid_hms(h as int, mi as int, s as int),
    ensures
        r == unique_local_time(tz@, y as int, mo as int, d as int, h as int, mi as int, s as int),
{
    let zone = match chrono_tz::Tz::from_str(tz) {
        Ok(z) => z,
        Err(_) => return None,
    };
    let date = chrono::NaiveDate::from_ymd_opt(y, mo, d).unwrap();
    let time = chrono::NaiveTime::from_hms_opt(h, mi, s).unwrap();
    Some(date.and_time(time).and_local_timezone(zone).single().is_some())
}

impl LocalDateTime {
    /// Whether this wall-clock date-time names exactly one instant in the
    /// time zone named `tz`; `None` when no time zone has that name.
    pub fn is_unique_in(&self, tz: &str) -> (r: Option<bool>)
        ensures
            r == spec_is_unique_in(*self, tz@),
    {
        proof {
            use_type_invariant(&self.date);
            use_type_invariant(&self.time);
        }
        local_time_is_unique(
            tz,
            self.date.year(),
            self.date.month(),
            self.date.day(),
            self.time.hour(),
            self.time.minute(),
            self.time.second(),
        )
    }
}

/// A length of time in seconds, written as hours, minutes and seconds with
/// the leading zero parts left out (`"1h 2m 3s"`, `"2m 3s"`, `"3s"`).
pub open spec fn human_readable_text(total: nat) -> Seq<char> {
    let hours = total / 3600;
    let minutes = (total % 3600) / 60;
    let seconds = total % 60;
    if hours > 0 {
        decimal(hours) + "h "@ + decimal(minutes) + "m "@ + decimal(seconds) + "s"@
    } else if minutes > 0 {
        decimal(minutes) + "m "@ + decimal(seconds) + "s"@
    } else {
        decimal(seconds) + "s"@
    }
}

/// The magnitude of `seconds`.
pub open spec fn magnitude(seconds: i64) -> nat {
    if seconds < 0 {
        (-seconds) as nat
    } else {
        seconds as nat
    }
}

/// Time spans, counted in seconds, that can be written for people.
pub trait TimeDeltaExt {
    /// The text for the span.
    spec fn human_text(&self) -> Seq<char>;

    /// The length of the span in hours, minutes and seconds; the sign is
    /// dropped.
    fn to_human_readable(&self) -> (r: String)
        ensures
            r@ == self.human_text(),
    ;
}

impl TimeDeltaExt for i64 {
    open spec fn human_text(&self) -> Seq<char> {
        human_readable_text(magnitude(*self))
    }

    fn to_human_readable(&self) -> (r: String) {
        let seconds = *self;
        let total: u64 = if seconds < 0 {
            (-(seconds + 1)) as u64 + 1
        } else {
            seconds as u64
        };
        let hours = total / 3600;
        let minutes = (total % 3600) / 60;
        let secs = total % 60;
        let mut s = String::new();
        if hours > 0 {
            let part = decimal_string(hours);
            s.append(part.as_str());
            s.append("h ");
            let part = decimal_string(minutes);
            s.append(part.as_str());
            s.append("m ");
        } else if minutes > 0 {
            let part = decimal_string(minutes);
            s.append(part.as_str());
            s.append("m ");
        }
        let part = decimal_string(secs);
        s.append(part.as_str());
        s.append("s");
        s
    }
}

} // verus!
