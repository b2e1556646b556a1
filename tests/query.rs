use planner::query::{parse_date_query, DateQuery, QueryError};
use planner::schedule::{parse_weeks, Schedule};
use planner::time::Date;

#[test]
fn relative_words() {
    assert_eq!(parse_date_query("today"), Ok(DateQuery::DaysFromToday(0)));
    assert_eq!(parse_date_query("tomorrow"), Ok(DateQuery::DaysFromToday(1)));
    assert_eq!(parse_date_query("yesterday"), Ok(DateQuery::DaysFromToday(-1)));
    assert_eq!(parse_date_query("ereyesterday"), Ok(DateQuery::DaysFromToday(-2)));
    assert_eq!(parse_date_query("overmorrow"), Ok(DateQuery::DaysFromToday(2)));
}

#[test]
fn week_day_slots() {
    assert_eq!(parse_date_query("W3D2"), Ok(DateQuery::Slot(3, 2)));
    assert_eq!(parse_date_query("W12D5"), Ok(DateQuery::Slot(12, 5)));
    assert_eq!(parse_date_query("W1D2D3"), Err(QueryError::BadSlotFormat));
    assert_eq!(parse_date_query("WxD2"), Err(QueryError::BadWeekNumber));
    assert_eq!(parse_date_query("W2D"), Err(QueryError::BadDayNumber));
    assert_eq!(parse_date_query("W0D2"), Err(QueryError::SlotOutOfRange));
    assert_eq!(parse_date_query("W1D6"), Err(QueryError::SlotOutOfRange));
}

#[test]
fn iso_dates_and_garbage() {
    assert_eq!(
        parse_date_query("2025-01-08"),
        Ok(DateQuery::On(Date::from_ymd(2025, 1, 8).unwrap()))
    );
    assert_eq!(parse_date_query("next week"), Err(QueryError::Unparseable));
    assert_eq!(parse_date_query("Wednesday"), Err(QueryError::Unparseable));
}

#[test]
fn slot_dates_come_from_the_term() {
    let raw = vec![vec![
        "2025-01-06".to_string(),
        "2025-01-07".to_string(),
        "2025-01-08".to_string(),
        "2025-01-09".to_string(),
        "2025-01-10".to_string(),
    ]];
    let s = Schedule { weeks: parse_weeks(&raw).unwrap(), subjects: vec![], teachers: vec![], schedule: vec![] };
    assert_eq!(s.slot_date(1, 3), Ok(Date::from_ymd(2025, 1, 8).unwrap()));
    assert_eq!(s.slot_date(2, 3), Err(QueryError::WeekOutOfRange));
    assert_eq!(s.slot_date(1, 0), Err(QueryError::SlotOutOfRange));
}
