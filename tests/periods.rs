use planner::periods::{NaiveTimePeriod, PeriodError};
use planner::time::{Date, LocalDateTime, TimeDeltaExt, TimeExt, TimeOfDay, Weekday};

fn hm(p: &TimeOfDay) -> (u32, u32, u32) {
    (p.hour(), p.minute(), p.second())
}

#[test]
fn parses_period_without_padding() {
    let p = NaiveTimePeriod::parse("9:30-11:00").unwrap();
    assert_eq!(hm(&p.start), (9, 30, 0));
    assert_eq!(hm(&p.end), (11, 0, 0));
    assert_eq!(p, NaiveTimePeriod::from_hm_hm(9, 30, 11, 0));
}

#[test]
fn parses_period_with_padding_and_spaces() {
    let p = NaiveTimePeriod::parse(" 09:05 - 13:45 ").unwrap();
    assert_eq!(hm(&p.start), (9, 5, 0));
    assert_eq!(hm(&p.end), (13, 45, 0));
}

#[test]
fn two_separators_fail() {
    assert_eq!(
        NaiveTimePeriod::parse("9:30-11:00-12:00"),
        Err(PeriodError::TooManySeparators("9:30".to_string()))
    );
}

#[test]
fn missing_separator_fails() {
    assert_eq!(
        NaiveTimePeriod::parse("9:30"),
        Err(PeriodError::MissingSeparator("9:30".to_string()))
    );
}

#[test]
fn invalid_times_fail() {
    assert_eq!(
        NaiveTimePeriod::parse("x-11:00"),
        Err(PeriodError::InvalidStart("x".to_string()))
    );
    assert_eq!(
        NaiveTimePeriod::parse("9:30-25:00"),
        Err(PeriodError::InvalidEnd("25:00".to_string()))
    );
}

#[test]
fn human_readable_spans() {
    assert_eq!((3725i64).to_human_readable(), "1h 2m 5s");
    assert_eq!((3600i64).to_human_readable(), "1h 0m 0s");
    assert_eq!((125i64).to_human_readable(), "2m 5s");
    assert_eq!((5i64).to_human_readable(), "5s");
    assert_eq!((0i64).to_human_readable(), "0s");
    assert_eq!((-65i64).to_human_readable(), "1m 5s");
    assert_eq!(i64::MIN.to_human_readable(), "2562047788015215h 30m 8s");
}

#[test]
fn dates_and_weekdays() {
    assert!(Date::from_ymd(2025, 2, 29).is_none());
    assert!(Date::from_ymd(2024, 2, 29).is_some());
    assert!(Date::from_ymd(2025, 13, 1).is_none());
    assert_eq!(Date::from_ymd(2025, 1, 8).unwrap().weekday(), Weekday::Wed);
    assert_eq!(Date::from_ymd(2025, 1, 6).unwrap().weekday(), Weekday::Mon);
    assert_eq!(Date::from_ymd(2025, 1, 12).unwrap().weekday(), Weekday::Sun);
    let d = Date::parse("2025-01-01").unwrap();
    assert_eq!((d.year(), d.month(), d.day()), (2025, 1, 1));
    assert!(Date::parse("2025-02-30").is_none());
    assert!(Date::parse("yesterday").is_none());
}

#[test]
fn stamps() {
    let dt = LocalDateTime {
        date: Date::from_ymd(2025, 1, 8).unwrap(),
        time: TimeOfDay::from_hms(9, 30, 7).unwrap(),
    };
    assert_eq!(dt.to_stamp(), "20250108T093007");
    let early = LocalDateTime {
        date: Date::from_ymd(987, 11, 3).unwrap(),
        time: TimeOfDay::from_hms(0, 0, 0).unwrap(),
    };
    assert_eq!(early.to_stamp(), "09871103T000000");
}

#[test]
fn local_times_in_zone() {
    let day = Date::from_ymd(2025, 1, 8).unwrap();
    let p = NaiveTimePeriod::from_hm_hm(9, 30, 11, 0);
    let (s, e) = p.on_day(day, "Europe/Warsaw").unwrap();
    assert_eq!(s.to_stamp(), "20250108T093000");
    assert_eq!(e.to_stamp(), "20250108T110000");
    assert!(p.on_day(day, "Nowhere/Special").is_none());
    let spring = Date::from_ymd(2025, 3, 30).unwrap();
    let gap = NaiveTimePeriod::from_hm_hm(2, 30, 4, 0);
    assert!(gap.on_day(spring, "Europe/Warsaw").is_none());
}

#[test]
fn period_durations() {
    assert_eq!(NaiveTimePeriod::from_hm_hm(9, 30, 11, 0).get_duration(), 5400);
    assert_eq!(NaiveTimePeriod::from_hm_hm(11, 0, 9, 30).get_duration(), -5400);
    assert_eq!(NaiveTimePeriod::from_hm_hm(0, 0, 23, 59).get_duration(), 86340);
}
