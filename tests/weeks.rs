use planner::class::Class;
use planner::class_type::{BasicColor, ClassType};
use planner::periods::NaiveTimePeriod;
use planner::time::Weekday;
use planner::weeks::{WeekParity, Weeks};

fn selector(from: Option<usize>, to: Option<usize>, parity: WeekParity, only: Option<Vec<usize>>) -> Weeks {
    Weeks::new(from, to, parity, only).unwrap()
}

#[test]
fn parity_of_week_counts_from_one() {
    assert_eq!(WeekParity::of_week(1), WeekParity::Odd);
    assert_eq!(WeekParity::of_week(2), WeekParity::Even);
    assert_eq!(WeekParity::of_week(3), WeekParity::Odd);
    assert_eq!(WeekParity::of_week(10), WeekParity::Even);
    for w in 1..50usize {
        assert_ne!(WeekParity::of_week(w), WeekParity::All);
    }
}

#[test]
fn parity_includes() {
    assert!(WeekParity::All.includes(1));
    assert!(WeekParity::All.includes(2));
    assert!(WeekParity::Odd.includes(5));
    assert!(!WeekParity::Odd.includes(6));
    assert!(WeekParity::Even.includes(6));
    assert!(!WeekParity::Even.includes(7));
}

#[test]
fn default_parity_is_all() {
    assert_eq!(WeekParity::default(), WeekParity::All);
}

#[test]
fn empty_selector_matches_every_week() {
    let w = Weeks::default();
    for week in 1..100usize {
        assert!(w.happens_in_week(week));
    }
}

#[test]
fn only_list_matches_listed_weeks() {
    let w = selector(None, None, WeekParity::All, Some(vec![1, 3]));
    assert!(w.happens_in_week(1));
    assert!(!w.happens_in_week(2));
    assert!(w.happens_in_week(3));
    assert!(!w.happens_in_week(4));
    assert!(!w.happens_in_week(100));
    let bounded = selector(Some(1), Some(10), WeekParity::Even, Some(vec![1, 3]));
    for week in 1..20usize {
        assert!(!bounded.happens_in_week(week));
    }
}

#[test]
fn odd_weeks_one_to_five() {
    let w = selector(Some(1), Some(5), WeekParity::Odd, None);
    let matched: Vec<usize> = (1..10usize).filter(|&k| w.happens_in_week(k)).collect();
    assert_eq!(matched, vec![1, 3, 5]);
    for k in [2usize, 4, 6] {
        assert!(!w.happens_in_week(k));
    }
}

#[test]
fn bounds_are_inclusive() {
    let w = selector(Some(5), Some(10), WeekParity::All, None);
    assert!(!w.happens_in_week(4));
    assert!(w.happens_in_week(5));
    assert!(w.happens_in_week(10));
    assert!(!w.happens_in_week(11));
}

#[test]
fn zero_week_numbers_are_rejected() {
    assert!(Weeks::new(Some(0), None, WeekParity::All, None).is_none());
    assert!(Weeks::new(None, Some(0), WeekParity::All, None).is_none());
    assert!(Weeks::new(None, None, WeekParity::All, Some(vec![2, 0])).is_none());
    let w = Weeks::new(Some(5), Some(10), WeekParity::Odd, None).unwrap();
    assert_eq!(w.from, Some(5));
    assert_eq!(w.to, Some(10));
    assert_eq!(w.parity, WeekParity::Odd);
}

fn wednesday_class(weeks: Option<Weeks>) -> Class {
    Class {
        subject: "subj".to_string(),
        class_type: ClassType::Lecture,
        day: Weekday::Wed,
        time: NaiveTimePeriod::from_hm_hm(9, 30, 11, 0),
        location: None,
        teachers: None,
        weeks,
    }
}

#[test]
fn happens_on_needs_matching_weekday() {
    let always = wednesday_class(None);
    assert!(always.happens_on(1, Weekday::Wed));
    assert!(always.happens_on(7, Weekday::Wed));
    for day in [Weekday::Mon, Weekday::Tue, Weekday::Thu, Weekday::Fri, Weekday::Sat, Weekday::Sun] {
        assert!(!always.happens_on(1, day));
    }
    let odd = wednesday_class(Some(selector(None, None, WeekParity::Odd, None)));
    assert!(odd.happens_on(1, Weekday::Wed));
    assert!(!odd.happens_on(2, Weekday::Wed));
    assert!(!odd.happens_on(1, Weekday::Thu));
}

#[test]
fn class_type_names_and_glyphs() {
    assert_eq!(ClassType::Lecture.to_name(), "Wykład");
    assert_eq!(ClassType::Lab.to_name(), "Laboratorium");
    assert_eq!(ClassType::Exercise.to_name(), "Ćwiczenia");
    assert_eq!(ClassType::Seminar.to_name(), "Seminarium");
    assert_eq!(ClassType::PE.to_name(), "Wychowanie Fizyczne");
    assert_eq!(ClassType::Languages.to_name(), "Lektorat");
    assert_eq!(ClassType::Project.to_name(), "Projekt");
    assert_eq!(ClassType::Lecture.to_emoji(), "📚");
    assert_eq!(ClassType::Lab.to_emoji(), "🧪");
    assert_eq!(ClassType::Project.to_emoji(), "🛠️");
    assert_eq!(ClassType::Lecture.to_color(), BasicColor::Magenta);
    assert_eq!(ClassType::Lab.to_color(), BasicColor::BrightGreen);
    assert_eq!(ClassType::Project.to_color(), BasicColor::White);
}

#[test]
fn deserialize_weeks() {
    assert_eq!(
        Weeks::new(Some(5), Some(10), WeekParity::Odd, None).unwrap(),
        Weeks { from: Some(5), to: Some(10), parity: WeekParity::Odd, only: None }
    );
    assert_eq!(Weeks::new(None, None, WeekParity::default(), None).unwrap(), Weeks::default());
}
