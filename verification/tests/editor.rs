use bcl::calendar::CalendarDate;
use bcl::editor::{
    bike_sheet, buy_sheet, category_sheet, edit_bike, edit_buy, edit_cat, edit_lub, edit_ride,
    entries, entry, last_taken, lines, lub_sheet, ride_sheet, value_for, Accept,
};
use bcl::models::{BikeList, BuyList, Category, ChainLubricationList, RideList};
use bcl::number::Number;
use bcl::text::int_string;
use chrono::Datelike;

fn day(y: i32, m: u32, d: u32) -> CalendarDate {
    CalendarDate::new(y, m, d).unwrap()
}

fn shown(d: &CalendarDate) -> (i32, u32, u32) {
    (d.year(), d.month(), d.day())
}

fn bike() -> BikeList {
    BikeList { id: 1, bike_id: 14, code: "G:2".to_string(), name: "Scott".to_string(), added: day(2023, 4, 5) }
}

fn buy() -> BuyList {
    BuyList {
        id: 2,
        buy_id: 31,
        target: "G:2".to_string(),
        tags: "road, rain".to_string(),
        name: "tyre".to_string(),
        price: Number::parse("30.5").unwrap(),
        date: day(2024, 1, 9),
    }
}

fn ride() -> RideList {
    RideList {
        id: 3,
        ride_id: 77,
        bike: "G:2".to_string(),
        date: day(2024, 5, 1),
        distance: Number::parse("42").unwrap(),
        tags: "road".to_string(),
        annotation: "to work".to_string(),
    }
}

fn lub() -> ChainLubricationList {
    ChainLubricationList {
        id: 4,
        lub_id: 8,
        bike: "G:2".to_string(),
        date: day(2024, 5, 2),
        passed: Number::parse("120").unwrap(),
        annotation: String::new(),
    }
}

#[test]
fn dates_are_written_as_chrono_writes_them() {
    for (y, m, d) in [(2024, 5, 1), (0, 1, 1), (9999, 12, 31), (10000, 1, 1), (-1, 1, 1), (-262143, 1, 1), (262142, 12, 31), (33, 10, 9)] {
        let expected = chrono::NaiveDate::from_ymd_opt(y, m, d).unwrap().to_string();
        assert_eq!(day(y, m, d).text(), expected);
    }
    assert_eq!(day(2024, 5, 1).text(), "2024-05-01");
    assert_eq!(day(-1, 1, 1).text(), "-0001-01-01");
    assert_eq!(day(10000, 12, 31).text(), "+10000-12-31");
}

#[test]
fn dates_are_read_as_chrono_reads_them() {
    for s in ["2024-05-01", "2024-5-1", "+12345-6-7", "2024-02-30", "foo", "", "2024-05-01 ", " 2024-05-01", "24-1-1", "2024/05/01"] {
        let expected = s.parse::<chrono::NaiveDate>().ok().map(|d| (d.year(), d.month(), d.day()));
        assert_eq!(CalendarDate::parse(s).map(|d| shown(&d)), expected, "{:?}", s);
    }
    assert_eq!(CalendarDate::parse("2015-09-18").map(|d| shown(&d)), Some((2015, 9, 18)));
    assert!(CalendarDate::parse("2015-09-31").is_none());
}

#[test]
fn whole_numbers() {
    assert_eq!(int_string(0), "0");
    assert_eq!(int_string(-1), "-1");
    assert_eq!(int_string(i32::MIN), i32::MIN.to_string());
    assert_eq!(int_string(i32::MAX), i32::MAX.to_string());
}

#[test]
fn lines_agree_with_std() {
    for s in ["", "\n", "a", "a\n", "a\nb", "a\r\nb\r\n", "a\r", "a\rb\n", "\n\n", "a\n\nb", "\r\n", "a\n\r", "a\r\r\n"] {
        let expected: Vec<String> = s.lines().map(|l| l.to_string()).collect();
        assert_eq!(lines(s), expected, "{:?}", s);
    }
}

#[test]
fn entries_split_at_the_first_mark() {
    assert_eq!(entry("name: Scott"), ("name".to_string(), "Scott".to_string()));
    assert_eq!(entry("name: a: b"), ("name".to_string(), "a: b".to_string()));
    assert_eq!(entry("name:Scott"), ("name:Scott".to_string(), "".to_string()));
    assert_eq!(entry("name: "), ("name".to_string(), "".to_string()));
    assert_eq!(entry(": x"), ("".to_string(), "x".to_string()));
    assert_eq!(entry(""), ("".to_string(), "".to_string()));
    assert_eq!(
        entries("a: 1\nb\n\nc: 2: 3\n"),
        vec![
            ("a".to_string(), "1".to_string()),
            ("b".to_string(), "".to_string()),
            ("".to_string(), "".to_string()),
            ("c".to_string(), "2: 3".to_string()),
        ]
    );
}

#[test]
fn the_last_value_that_is_taken_counts() {
    let given = entries("name: a\nname: \ndate: 2024-01-01\ndate: never\nprice: 3\nprice: x\n");
    assert_eq!(value_for(&given, "name", Accept::Any), Some(""));
    assert_eq!(value_for(&given, "name", Accept::Filled), Some("a"));
    assert_eq!(value_for(&given, "date", Accept::Date), Some("2024-01-01"));
    assert_eq!(value_for(&given, "date", Accept::Any), Some("never"));
    assert_eq!(value_for(&given, "price", Accept::Number), Some("3"));
    assert_eq!(value_for(&given, "colour", Accept::Any), None);
}

#[test]
fn sheets() {
    assert_eq!(bike_sheet(&bike()), "id: 1\nbike_id: 14\ncode: G:2\nname: Scott\ndate: 2023-04-05\n");
    assert_eq!(
        buy_sheet(&buy()),
        "id: 2\nbuy_id: 31\ntarget: G:2\ntags: road, rain\nname: tyre\nprice: 30.5\ndate: 2024-01-09\n"
    );
    assert_eq!(
        category_sheet(&Category { id: -3, abbr: "G".to_string(), name: "Gravel".to_string() }),
        "id: -3\nabbr: G\nname: Gravel\n"
    );
    assert_eq!(lub_sheet(&lub()), "id: 8\nbike: G:2\ndate: 2024-05-02\nannotation: \n");
    assert_eq!(
        ride_sheet(&ride()),
        "id: 3\nride_id: 77\nbike: G:2\ndate: 2024-05-01\ndistance: 42\ntags: road\nannotation: to work\n"
    );
}

#[test]
fn an_unchanged_sheet_changes_nothing() {
    let b = edit_bike(bike(), &bike_sheet(&bike()));
    assert_eq!((b.id, b.bike_id, b.code.as_str(), b.name.as_str(), shown(&b.added)), (1, 14, "G:2", "Scott", (2023, 4, 5)));
    let r = edit_ride(ride(), &ride_sheet(&ride()));
    assert_eq!(r.distance.as_str(), "42");
    assert_eq!(r.annotation, "to work");
    assert_eq!(shown(&r.date), (2024, 5, 1));
}

#[test]
fn edited_bike() {
    let b = edit_bike(bike(), "id: 9\nbike_id: 9\ncode: MTB:1\nname: Trek\ndate: 2020-02-29\n");
    assert_eq!((b.id, b.bike_id), (1, 14));
    assert_eq!(b.code, "MTB:1");
    assert_eq!(b.name, "Trek");
    assert_eq!(shown(&b.added), (2020, 2, 29));
    let b = edit_bike(bike(), "date: 2021-02-29\nname\nnam: x\n");
    assert_eq!(shown(&b.added), (2023, 4, 5));
    assert_eq!(b.name, "");
    assert_eq!(b.code, "G:2");
    let b = edit_bike(bike(), "");
    assert_eq!(b.code, "G:2");
}

#[test]
fn edited_purchase() {
    let b = edit_buy(buy(), "target: \ntags: x\nname: tube\nprice: 4.5\ndate: 2024-01-10\n");
    assert_eq!(b.target, "");
    assert_eq!(b.tags, "x");
    assert_eq!(b.name, "tube");
    assert_eq!(b.price.as_str(), "4.5");
    assert_eq!(shown(&b.date), (2024, 1, 10));
    let b = edit_buy(buy(), "price: cheap\n");
    assert_eq!(b.price.as_str(), "30.5");
    assert_eq!((b.id, b.buy_id), (2, 31));
}

#[test]
fn edited_category_is_never_empty() {
    let c = Category { id: 1, abbr: "G".to_string(), name: "Gravel".to_string() };
    let c = edit_cat(c, "id: 5\nabbr: \nname: Gravel bikes\n");
    assert_eq!((c.id, c.abbr.as_str(), c.name.as_str()), (1, "G", "Gravel bikes"));
}

#[test]
fn edited_lubrication_and_ride() {
    let l = edit_lub(lub(), "bike: G:3\ndate: 2024-05-03\nannotation: wax\n");
    assert_eq!((l.id, l.lub_id), (4, 8));
    assert_eq!(l.bike, "G:3");
    assert_eq!(shown(&l.date), (2024, 5, 3));
    assert_eq!(l.annotation, "wax");
    assert_eq!(l.passed.as_str(), "120");
    let r = edit_ride(ride(), "bike: G:3\r\ndate: x\r\ndistance: 50\r\ntags: \r\nannotation: home\r\n");
    assert_eq!((r.id, r.ride_id), (3, 77));
    assert_eq!(r.bike, "G:3");
    assert_eq!(shown(&r.date), (2024, 5, 1));
    assert_eq!(r.distance.as_str(), "50");
    assert_eq!(r.tags, "");
    assert_eq!(r.annotation, "home");
}

#[test]
fn lines_agree_with_std_on_short_texts() {
    let alphabet = ['a', '\n', '\r'];
    let mut all: Vec<String> = vec![String::new()];
    for _ in 0..7 {
        let mut next: Vec<String> = Vec::new();
        for w in &all {
            for c in alphabet {
                let mut longer = w.clone();
                longer.push(c);
                next.push(longer);
            }
        }
        all.extend(next);
        all.sort();
        all.dedup();
    }
    for s in all {
        let expected: Vec<String> = s.lines().map(|l| l.to_string()).collect();
        assert_eq!(lines(&s), expected, "{:?}", s);
    }
}

#[test]
fn the_last_entry_that_is_taken() {
    let given = entries("date: 2024-01-01\nname: a\ndate: never\ndate: 2024-02-02\n");
    assert_eq!(last_taken(&given, "date", &vec![true, true, false, true]), Some(3));
    assert_eq!(last_taken(&given, "date", &vec![true, true, false, false]), Some(0));
    assert_eq!(last_taken(&given, "date", &vec![false, true, true, false]), Some(2));
    assert_eq!(last_taken(&given, "date", &vec![false, true, false, false]), None);
    assert_eq!(last_taken(&given, "name", &vec![true, true, true, true]), Some(1));
    assert_eq!(last_taken(&given, "date", &vec![true]), Some(0));
    assert_eq!(last_taken(&given, "date", &vec![]), None);
    assert_eq!(last_taken(&given, "colour", &vec![true, true, true, true]), None);
}
