use bcl::calendar::CalendarDate;
use bcl::date::{bound_date, get_date, Date};
use bcl::error::{ParseError, Part, Slot};

fn day(y: i32, m: u32, d: u32) -> CalendarDate {
    CalendarDate::new(y, m, d).unwrap()
}

#[test]
fn prev_day_on_the_first_of_march() {
    let mut date = Date::new();
    date.day_from_str("prev", &day(2024, 3, 1)).unwrap();
    assert_eq!(date.day, Some(29));
    let mut date = Date::new();
    date.day_from_str("prev", &day(2023, 3, 1)).unwrap();
    assert_eq!(date.day, Some(28));
}

#[test]
fn prev_month_wraps_to_december() {
    let mut date = Date::new();
    date.month_from_str("prev", &day(2024, 1, 10)).unwrap();
    assert_eq!(date.month, Some(12));
    let mut date = Date::new();
    date.month_from_str("prev", &day(2024, 6, 10)).unwrap();
    assert_eq!(date.month, Some(5));
}

#[test]
fn prev_and_now_year() {
    let mut date = Date::new();
    date.year_from_str("prev", &day(2024, 6, 10)).unwrap();
    assert_eq!(date.year, Some(2023));
    let mut date = Date::new();
    date.year_from_str("now", &day(2024, 6, 10)).unwrap();
    assert_eq!(date.year, Some(2024));
    let mut date = Date::new();
    date.year_from_str("-44", &day(2024, 6, 10)).unwrap();
    assert_eq!(date.year, Some(-44));
}

#[test]
fn now_month_and_day() {
    let mut date = Date::new();
    date.month_from_str("now", &day(2024, 6, 10)).unwrap();
    date.day_from_str("now", &day(2024, 6, 10)).unwrap();
    assert_eq!(date, Date { year: None, month: Some(6), day: Some(10) });
}

#[test]
fn year_alone_resolves_with_today() {
    let today = day(2024, 6, 10);
    let mut date = Date::new();
    assert!(date.is_none());
    assert!(!date.is_some());
    date.year_from_str("2020", &today).unwrap();
    assert_eq!(date.year_or_now(&today), 2020);
    assert_eq!(date.month_or_now(&today), 6);
    assert_eq!(date.day_or_now(&today), 10);
    assert!(date.is_some());
    assert!(!date.is_none());
    assert!(date.day.is_none());
    let full = Date { year: Some(2020), month: Some(6), day: Some(10) };
    assert!(full.is_some());
    assert!(!full.is_none());
    let made = date.to_naive(&today).unwrap();
    assert_eq!((made.year(), made.month(), made.day()), (2020, 6, 10));
}

#[test]
fn each_part_is_written_once() {
    let today = day(2024, 6, 10);
    let mut date = Date::new();
    date.year_from_str("2020", &today).unwrap();
    assert_eq!(date.year_from_str("2021", &today), Err(ParseError::Multiple(Slot::Year)));
    assert_eq!(date.year, Some(2020));
    date.month_from_str("1", &today).unwrap();
    assert_eq!(date.month_from_str("2", &today), Err(ParseError::Multiple(Slot::Month)));
    date.day_from_str("1", &today).unwrap();
    assert_eq!(date.day_from_str("2", &today), Err(ParseError::Multiple(Slot::Day)));
    assert_eq!(date, Date { year: Some(2020), month: Some(1), day: Some(1) });
}

#[test]
fn parts_have_to_be_numbers() {
    let today = day(2024, 6, 10);
    let mut date = Date::new();
    assert_eq!(
        date.year_from_str("twenty", &today),
        Err(ParseError::WrongPart { part: Part::Year, given: "twenty".to_string() })
    );
    assert_eq!(
        date.month_from_str("-1", &today),
        Err(ParseError::WrongPart { part: Part::Month, given: "-1".to_string() })
    );
    assert_eq!(
        date.day_from_str("", &today),
        Err(ParseError::WrongPart { part: Part::Day, given: "".to_string() })
    );
    assert!(date.is_none());
}

#[test]
fn full_dates() {
    let today = day(2024, 6, 10);
    let mut date = Date::new();
    date.from_str("2024-02-29", &today).unwrap();
    assert_eq!(date, Date { year: Some(2024), month: Some(2), day: Some(29) });
    let mut date = Date::new();
    date.from_str("-05-", &today).unwrap();
    assert_eq!(date, Date { year: None, month: Some(5), day: None });
    let mut date = Date::new();
    date.from_str("--", &today).unwrap();
    assert!(date.is_none());
    let mut date = Date::new();
    date.from_str("now-prev-prev", &day(2024, 3, 1)).unwrap();
    assert_eq!(date, Date { year: Some(2024), month: Some(2), day: Some(29) });
}

#[test]
fn full_dates_have_three_parts() {
    let today = day(2024, 6, 10);
    let mut date = Date::new();
    assert_eq!(date.from_str("2024-02", &today), Err(ParseError::BadDate));
    assert_eq!(date.from_str("2024-02-03-04", &today), Err(ParseError::BadDate));
    assert_eq!(date.from_str("", &today), Err(ParseError::BadDate));
}

#[test]
fn a_refused_date_changes_nothing() {
    let today = day(2024, 6, 10);
    let mut date = Date { year: None, month: None, day: Some(3) };
    assert_eq!(date.from_str("2024-02-03", &today), Err(ParseError::Multiple(Slot::Day)));
    assert_eq!(date, Date { year: None, month: None, day: Some(3) });
}

#[test]
fn validity() {
    let today = day(2024, 6, 10);
    assert!(Date::new().is_valid_date(&today));
    assert!(Date { year: Some(2024), month: Some(6), day: Some(10) }.is_valid_date(&today));
    assert!(!Date { year: Some(2024), month: Some(6), day: Some(11) }.is_valid_date(&today));
    assert!(!Date { year: Some(2025), month: None, day: None }.is_valid_date(&today));
    assert!(!Date { year: None, month: Some(4), day: Some(31) }.is_valid_date(&today));
    assert!(!Date { year: None, month: Some(13), day: None }.is_valid_date(&today));
    assert!(Date { year: None, month: Some(2), day: None }.is_valid_date(&today));
    assert!(!Date { year: None, month: Some(2), day: None }.is_valid_date(&day(2024, 5, 30)));
    assert!(Date { year: None, month: Some(4), day: Some(31) }.to_naive(&today).is_none());
}

#[test]
fn the_day_a_query_counts_from() {
    let today = day(2024, 6, 10);
    assert!(get_date(&Date::new(), &today).unwrap().is_none());
    let d = get_date(&Date { year: Some(2020), month: None, day: None }, &today).unwrap().unwrap();
    assert_eq!((d.year(), d.month(), d.day()), (2020, 6, 10));
    let d = get_date(&Date { year: None, month: Some(2), day: None }, &today).unwrap().unwrap();
    assert_eq!((d.year(), d.month(), d.day()), (2024, 2, 10));
    let d = get_date(&Date { year: None, month: None, day: Some(3) }, &today).unwrap().unwrap();
    assert_eq!((d.year(), d.month(), d.day()), (2024, 6, 3));
    let d = get_date(&Date { year: Some(2020), month: None, day: None }, &day(2026, 10, 28));
    let d = d.unwrap().unwrap();
    assert_eq!((d.year(), d.month(), d.day()), (2020, 10, 28));
    assert_eq!(
        get_date(&Date { year: None, month: None, day: Some(31) }, &today).unwrap_err(),
        ParseError::InvalidDate
    );
    assert_eq!(
        get_date(&Date { year: None, month: Some(13), day: None }, &today).unwrap_err(),
        ParseError::InvalidDate
    );
    assert_eq!(
        get_date(&Date { year: None, month: Some(2), day: None }, &day(2024, 5, 30)).unwrap_err(),
        ParseError::InvalidDate
    );
}

#[test]
fn the_day_a_bound_stands_for() {
    let today = day(2024, 6, 10);
    assert!(bound_date(&Date::new(), &today).unwrap().is_none());
    let d = bound_date(&Date { year: Some(2020), month: None, day: None }, &today).unwrap().unwrap();
    assert_eq!((d.year(), d.month(), d.day()), (2020, 1, 1));
    let d = bound_date(&Date { year: None, month: Some(2), day: None }, &today).unwrap().unwrap();
    assert_eq!((d.year(), d.month(), d.day()), (2024, 2, 1));
    let d = bound_date(&Date { year: None, month: Some(2), day: None }, &day(2024, 5, 30));
    let d = d.unwrap().unwrap();
    assert_eq!((d.year(), d.month(), d.day()), (2024, 2, 1));
    let d = bound_date(&Date { year: None, month: None, day: Some(3) }, &today).unwrap().unwrap();
    assert_eq!((d.year(), d.month(), d.day()), (2024, 6, 3));
    assert_eq!(
        bound_date(&Date { year: None, month: None, day: Some(31) }, &today).unwrap_err(),
        ParseError::InvalidDate
    );
    assert_eq!(
        bound_date(&Date { year: None, month: Some(13), day: None }, &today).unwrap_err(),
        ParseError::InvalidDate
    );
}
