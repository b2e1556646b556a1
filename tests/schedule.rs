use planner::class::{Class, Location};
use planner::class_type::ClassType;
use planner::ical::SerializeToICal;
use planner::materialize::{schedule_to_ical, MaterializeError};
use planner::periods::NaiveTimePeriod;
use planner::schedule::{parse_weeks, DateError, Schedule, Subject, Teacher, WeeksError};
use planner::time::{Date, LocalDateTime, TimeExt, TimeOfDay, Weekday};

fn date(y: i32, m: u32, d: u32) -> Date {
    Date::from_ymd(y, m, d).unwrap()
}

fn week_of(dates: [&str; 5]) -> [Date; 5] {
    let raw = vec![dates.iter().map(|s| s.to_string()).collect::<Vec<_>>()];
    parse_weeks(&raw).unwrap()[0]
}

fn lecture(subject: &str, day: Weekday, time: &str) -> Class {
    Class {
        subject: subject.to_string(),
        class_type: ClassType::Lecture,
        day,
        time: NaiveTimePeriod::parse(time).unwrap(),
        location: None,
        teachers: None,
        weeks: None,
    }
}

fn schedule_with(weeks: Vec<[Date; 5]>, classes: Vec<Class>) -> Schedule {
    Schedule {
        weeks,
        subjects: vec![("subj".to_string(), Subject { name: "Subject".to_string() })],
        teachers: vec![("teacher1".to_string(), Teacher { name: "Teacher".to_string() })],
        schedule: classes,
    }
}

fn created() -> LocalDateTime {
    LocalDateTime { date: date(2025, 1, 1), time: TimeOfDay::from_hms(12, 0, 0).unwrap() }
}

fn tz() -> String {
    "Europe/Warsaw".to_string()
}

fn first_week() -> [Date; 5] {
    week_of(["2025-01-06", "2025-01-07", "2025-01-08", "2025-01-09", "2025-01-10"])
}

#[test]
fn deserialize_class() {
    let class = Class {
        subject: "subj".to_string(),
        class_type: ClassType::Lecture,
        day: Weekday::Wed,
        time: NaiveTimePeriod::parse("9:30-11:00").unwrap(),
        location: Some(Location { building: "A".into(), room: "123".into() }),
        teachers: Some(vec!["teacher1".into()]),
        weeks: None,
    };
    assert_eq!(class.subject, "subj");
    assert_eq!(class.class_type, ClassType::Lecture);
    assert_eq!(class.day, Weekday::Wed);
    assert_eq!(class.time, NaiveTimePeriod::from_hm_hm(9, 30, 11, 0));
    assert_eq!(
        class.location,
        Some(Location { building: "A".into(), room: "123".into() })
    );
    assert_eq!(class.teachers, Some(vec!["teacher1".into()]));
}

#[test]
fn deserialize_schedule() {
    let raw = vec![vec![
        "2025-01-01".to_string(),
        "2025-01-02".to_string(),
        "2025-01-03".to_string(),
        "2025-01-04".to_string(),
        "2025-01-05".to_string(),
    ]];
    let schedule = schedule_with(parse_weeks(&raw).unwrap(), vec![]);
    assert_eq!(schedule.weeks.len(), 1);
    assert_eq!(schedule.weeks[0][0], date(2025, 1, 1));
    assert_eq!(schedule.subjects.len(), 1);
    assert_eq!(schedule.subjects[0].0, "subj");
    assert_eq!(schedule.subjects[0].1.name, "Subject");
    assert_eq!(schedule.teachers[0].1.name, "Teacher");
    assert_eq!(schedule.schedule.len(), 0);
}

#[test]
fn week_rows_must_have_five_valid_dates() {
    let short = vec![vec!["2025-01-01".to_string()]];
    assert_eq!(parse_weeks(&short), Err(WeeksError::WrongLength(1)));
    let bad = vec![vec![
        "2025-01-01".to_string(),
        "2025-01-02".to_string(),
        "2025-13-03".to_string(),
        "2025-01-04".to_string(),
        "2025-01-05".to_string(),
    ]];
    assert_eq!(parse_weeks(&bad), Err(WeeksError::InvalidDate("2025-13-03".to_string())));
}

#[test]
fn get_day_finds_week_and_real_weekday() {
    let second = week_of(["2025-01-13", "2025-01-14", "2025-01-15", "2025-01-16", "2025-01-17"]);
    let s = schedule_with(vec![first_week(), second], vec![]);
    assert_eq!(s.get_day(date(2025, 1, 8)), Ok((1, Weekday::Wed)));
    assert_eq!(s.get_day(date(2025, 1, 17)), Ok((2, Weekday::Fri)));
    assert_eq!(s.get_day(date(2025, 1, 11)), Err(DateError::DateNotInTerm));
}

#[test]
fn get_classes_on_keeps_declared_order() {
    let s = schedule_with(
        vec![first_week()],
        vec![
            lecture("b", Weekday::Wed, "12:00-13:00"),
            lecture("a", Weekday::Thu, "8:00-9:00"),
            lecture("c", Weekday::Wed, "8:00-9:00"),
        ],
    );
    let on_wed: Vec<&str> = s.get_classes_on(1, Weekday::Wed).iter().map(|c| c.subject.as_str()).collect();
    assert_eq!(on_wed, vec!["b", "c"]);
    assert!(s.get_classes_on(1, Weekday::Mon).is_empty());
}

#[test]
fn single_wednesday_lecture_gives_one_event() {
    let s = schedule_with(vec![first_week()], vec![lecture("subj", Weekday::Wed, "9:30-11:00")]);
    let cal = schedule_to_ical(&s, &tz(), created()).unwrap();
    assert_eq!(cal.events.len(), 1);
    let e = &cal.events[0];
    assert_eq!(e.start.to_stamp(), "20250108T093000");
    assert_eq!(e.end.to_stamp(), "20250108T110000");
    assert_eq!(e.time_zone, "Europe/Warsaw");
    assert!(e.summary.contains("📚"));
    assert!(e.summary.contains("Subject"));
    assert_eq!(e.summary, "📚 Subject");
    assert_eq!(e.uid, "Wykład-subj-Wed-0-0930");
    assert_eq!(e.description, "Wykład");
    assert_eq!(e.location, "");
    assert_eq!(cal.prod_id, "-//TheChilliPL//Planner//PL");
    assert_eq!(cal.version, "2.0");
}

#[test]
fn teachers_and_location_fill_the_event() {
    let mut class = lecture("subj", Weekday::Mon, "10:00-11:30");
    class.class_type = ClassType::Lab;
    class.subject = "subj".to_string();
    class.teachers = Some(vec!["teacher1".to_string(), "teacher1".to_string()]);
    class.location = Some(Location { building: "C-13".to_string(), room: "2.14".to_string() });
    let s = schedule_with(vec![first_week()], vec![class]);
    let cal = schedule_to_ical(&s, &tz(), created()).unwrap();
    let e = &cal.events[0];
    assert_eq!(e.description, "Laboratorium\nTeacher\nTeacher");
    assert_eq!(e.location, "2.14/C-13");
    assert_eq!(e.uid, "Laboratorium-subj-Mon-0-1000");
}

#[test]
fn mismatched_slot_uses_real_weekday() {
    let odd_week = week_of(["2025-01-06", "2025-01-15", "2025-01-08", "2025-01-09", "2025-01-10"]);
    let s = schedule_with(vec![odd_week], vec![lecture("subj", Weekday::Wed, "9:30-11:00")]);
    assert_eq!(s.weekday_mismatches(), vec![(0, 1)]);
    assert_eq!(s.occurrences(), vec![(0, 1, 0), (0, 2, 0)]);
    let cal = schedule_to_ical(&s, &tz(), created()).unwrap();
    assert_eq!(cal.events.len(), 2);
    assert_eq!(cal.events[0].start.to_stamp(), "20250115T093000");
    assert_eq!(cal.events[1].start.to_stamp(), "20250108T093000");
}

#[test]
fn unknown_subject_aborts() {
    let s = schedule_with(
        vec![first_week()],
        vec![lecture("subj", Weekday::Mon, "9:30-11:00"), lecture("nope", Weekday::Tue, "9:30-11:00")],
    );
    let r = schedule_to_ical(&s, &tz(), created());
    assert_eq!(r.err(), Some(MaterializeError::UnknownSubject("nope".to_string())));
}

#[test]
fn unknown_teacher_aborts() {
    let mut class = lecture("subj", Weekday::Mon, "9:30-11:00");
    class.teachers = Some(vec!["teacher1".to_string(), "ghost".to_string()]);
    let s = schedule_with(vec![first_week()], vec![class]);
    let r = schedule_to_ical(&s, &tz(), created());
    assert_eq!(r.err(), Some(MaterializeError::UnknownTeacher("ghost".to_string())));
}

#[test]
fn time_zone_errors() {
    let s = schedule_with(vec![first_week()], vec![lecture("subj", Weekday::Mon, "9:30-11:00")]);
    let r = schedule_to_ical(&s, &"Mars/Olympus".to_string(), created());
    assert_eq!(r.err(), Some(MaterializeError::UnknownTimeZone("Mars/Olympus".to_string())));
    let spring = week_of(["2025-03-24", "2025-03-25", "2025-03-26", "2025-03-27", "2025-03-30"]);
    let s = schedule_with(vec![spring], vec![lecture("subj", Weekday::Sun, "2:30-4:00")]);
    let r = schedule_to_ical(&s, &tz(), created());
    assert_eq!(r.err(), Some(MaterializeError::AmbiguousLocalTime));
}

#[test]
fn week_selectors_limit_events() {
    let second = week_of(["2025-01-13", "2025-01-14", "2025-01-15", "2025-01-16", "2025-01-17"]);
    let third = week_of(["2025-01-20", "2025-01-21", "2025-01-22", "2025-01-23", "2025-01-24"]);
    let mut class = lecture("subj", Weekday::Fri, "8:00-9:00");
    class.weeks = planner::weeks::Weeks::new(None, None, planner::weeks::WeekParity::Odd, None);
    let s = schedule_with(vec![first_week(), second, third], vec![class]);
    let cal = schedule_to_ical(&s, &tz(), created()).unwrap();
    let uids: Vec<&str> = cal.events.iter().map(|e| e.uid.as_str()).collect();
    assert_eq!(uids, vec!["Wykład-subj-Fri-0-0800", "Wykład-subj-Fri-2-0800"]);
}

#[test]
fn calendar_text_is_crlf_with_escapes() {
    let mut class = lecture("subj", Weekday::Wed, "9:30-11:00");
    class.teachers = Some(vec!["teacher1".to_string()]);
    let s = schedule_with(vec![first_week()], vec![class]);
    let cal = schedule_to_ical(&s, &tz(), created()).unwrap();
    let text = cal.serialize_to_ical();
    let expected = "BEGIN:VCALENDAR\r\n\
PRODID:-//TheChilliPL//Planner//PL\r\n\
VERSION:2.0\r\n\
BEGIN:VEVENT\r\n\
UID:Wykład-subj-Wed-0-0930\r\n\
DTSTAMP;TZID=Europe/Warsaw:20250101T120000\r\n\
DTSTART;TZID=Europe/Warsaw:20250108T093000\r\n\
DTEND;TZID=Europe/Warsaw:20250108T110000\r\n\
SUMMARY:📚 Subject\r\n\
LOCATION:\r\n\
DESCRIPTION:Wykład\\nTeacher\r\n\
END:VEVENT\r\n\
END:VCALENDAR\r\n";
    assert_eq!(text, expected);
    assert_eq!(cal.events[0].serialize_to_ical().lines().count(), 9);
}

#[test]
fn subject_spaces_become_underscores_in_uid() {
    let mut s = schedule_with(vec![first_week()], vec![lecture("data bases", Weekday::Tue, "14:15-16:00")]);
    s.subjects.push(("data bases".to_string(), Subject { name: "Data Bases".to_string() }));
    let cal = schedule_to_ical(&s, &tz(), created()).unwrap();
    assert_eq!(cal.events[0].uid, "Wykład-data_bases-Tue-0-1415");
    assert_eq!(cal.events[0].summary, "📚 Data Bases");
}
