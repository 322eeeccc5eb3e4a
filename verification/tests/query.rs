use bcl::calendar::CalendarDate;
use bcl::command::Command;
use bcl::error::ParseError;
use bcl::query::{compile, Entity, Op, Param, Query};

fn args(words: &[&str]) -> Vec<String> {
    words.iter().map(|w| w.to_string()).collect()
}

fn today() -> CalendarDate {
    CalendarDate::new(2024, 6, 10).unwrap()
}

fn command(words: &[&str]) -> Command {
    Command::classify(&args(words), &vec!["G".to_string()], &today()).unwrap()
}

fn shown(p: &Param) -> String {
    match p {
        Param::Id(n) => format!("id {}", n),
        Param::Ordinal(n) => format!("ordinal {}", n),
        Param::Real(x) => format!("real {}", x.as_str()),
        Param::Day(d) => format!("day {}-{}-{}", d.year(), d.month(), d.day()),
        Param::Text(s) => format!("text {}", s),
    }
}

fn summary(q: &Query) -> Vec<String> {
    q.filters
        .iter()
        .map(|f| {
            let op = match f.op {
                Op::Equal => "=",
                Op::AtLeast => ">=",
                Op::Greater => ">",
                Op::Less => "<",
                Op::Contains => "holds",
            };
            format!("{} {} {}", f.column, op, shown(&f.param))
        })
        .collect()
}

const RIDES: &str = "SELECT r.id, r.datestamp, r.distance, concat(c.abbr, ':', b.id_in_cat) AS cat_bike, COALESCE(r.annotation, '') AS ann, COALESCE(GROUP_CONCAT(t.name, ', '), '') AS tags FROM ride r LEFT JOIN tag_to_ride tr ON r.id = tr.ride_id LEFT JOIN tag t ON tr.tag_id = t.id LEFT JOIN bike b ON r.bike_id = b.id LEFT JOIN category c ON b.category_id = c.id";

#[test]
fn no_filter_no_where() {
    let q = compile(&command(&["list", "ride"]), Entity::Ride, &today()).unwrap();
    assert!(q.filters.is_empty());
    assert_eq!(q.lim, 10);
    assert_eq!(q.sql(), format!("{} GROUP BY r.id ORDER BY r.datestamp DESC LIMIT 10", RIDES));
    assert!(q.params().is_empty());
}

#[test]
fn limit_zero_is_no_limit() {
    let q = compile(&command(&["list", "ride", "lim:"]), Entity::Ride, &today()).unwrap();
    assert_eq!(q.sql(), format!("{} GROUP BY r.id ORDER BY r.datestamp DESC", RIDES));
}

#[test]
fn all_filters_of_a_ride() {
    let c = command(&["list", "ride", "G:2", "30", "2024-05-01", "long", "way", "lim:255"]);
    let q = compile(&c, Entity::Ride, &today()).unwrap();
    assert_eq!(
        summary(&q),
        vec![
            "r.distance = real 30",
            "r.datestamp = day 2024-5-1",
            "c.abbr = text G",
            "b.id_in_cat = ordinal 2",
            "r.annotation holds text long way",
        ]
    );
    assert_eq!(
        q.sql(),
        format!(
            "{} WHERE r.distance = ?1 AND r.datestamp = ?2 AND c.abbr = ?3 AND b.id_in_cat = ?4 AND instr(r.annotation, ?5) > 0 GROUP BY r.id ORDER BY r.datestamp DESC LIMIT 255",
            RIDES
        )
    );
    let params: Vec<String> = q.params().iter().map(shown).collect();
    assert_eq!(params, vec!["real 30", "day 2024-5-1", "text G", "ordinal 2", "text long way"]);
}

#[test]
fn key_of_the_store_stands_alone() {
    let c = command(&["list", "ride", "id:7", "G:2", "30", "2024-05-01", "long"]);
    for (entity, column) in [(Entity::Bike, "b.id"), (Entity::Buy, "b.id"), (Entity::Ride, "r.id"), (Entity::Lub, "l.id")] {
        let q = compile(&c, entity, &today()).unwrap();
        assert_eq!(summary(&q), vec![format!("{} = id 7", column)]);
    }
}

#[test]
fn exact_value_goes_before_bounds() {
    let c = command(&["list", "buy", "10", "5+", "20-"]);
    let q = compile(&c, Entity::Buy, &today()).unwrap();
    assert_eq!(summary(&q), vec!["b.price = real 10"]);
    let c = command(&["list", "buy", "5+", "20-"]);
    let q = compile(&c, Entity::Buy, &today()).unwrap();
    assert_eq!(summary(&q), vec!["b.price > real 5", "b.price < real 20"]);
    let c = command(&["list", "buy", "20-"]);
    let q = compile(&c, Entity::Buy, &today()).unwrap();
    assert_eq!(summary(&q), vec!["b.price < real 20"]);
}

#[test]
fn partial_date_is_filled_with_today() {
    let q = compile(&command(&["list", "year:2020"]), Entity::Buy, &today()).unwrap();
    assert_eq!(summary(&q), vec!["b.datestamp >= day 2020-6-10"]);
    let q = compile(&command(&["list", "month:2"]), Entity::Buy, &today()).unwrap();
    assert_eq!(summary(&q), vec!["b.datestamp >= day 2024-2-10"]);
    let q = compile(&command(&["list", "year:2023", "month:2"]), Entity::Buy, &today()).unwrap();
    assert_eq!(summary(&q), vec!["b.datestamp >= day 2023-2-10"]);
    let q = compile(&command(&["list", "day:3"]), Entity::Buy, &today()).unwrap();
    assert_eq!(summary(&q), vec!["b.datestamp = day 2024-6-3"]);
    let late = CalendarDate::new(2026, 10, 28).unwrap();
    let c = Command::classify(&args(&["list", "year:2020"]), &vec![], &late).unwrap();
    let q = compile(&c, Entity::Ride, &late).unwrap();
    assert_eq!(summary(&q), vec!["r.datestamp >= day 2020-10-28"]);
}

#[test]
fn a_date_that_is_no_day_is_refused() {
    let mut c = command(&["list"]);
    c.date.month = Some(2);
    let at = CalendarDate::new(2024, 5, 30).unwrap();
    assert_eq!(compile(&c, Entity::Ride, &at).unwrap_err(), ParseError::InvalidDate);
}

#[test]
fn date_bounds_apply_without_a_date() {
    let c = command(&["list", "gt:2023-01-01", "lt:2024--"]);
    let q = compile(&c, Entity::Lub, &today()).unwrap();
    assert_eq!(summary(&q), vec!["l.datestamp > day 2023-1-1", "l.datestamp < day 2024-1-1"]);
    let c = command(&["list", "gt:-2-"]);
    let q = compile(&c, Entity::Lub, &today()).unwrap();
    assert_eq!(summary(&q), vec!["l.datestamp > day 2024-2-1"]);
    let c = command(&["list", "gt:2023-01-01", "lt:2024--", "year:2022"]);
    let q = compile(&c, Entity::Lub, &today()).unwrap();
    assert_eq!(summary(&q), vec!["l.datestamp >= day 2022-6-10"]);
}

#[test]
fn a_bound_that_is_no_day_is_refused() {
    let c = command(&["list", "gt:2023-02-30"]);
    assert_eq!(compile(&c, Entity::Ride, &today()).unwrap_err(), ParseError::InvalidDate);
    let c = command(&["list", "lt:2023-13-"]);
    assert_eq!(compile(&c, Entity::Ride, &today()).unwrap_err(), ParseError::InvalidDate);
    assert!(compile(&c, Entity::Bike, &today()).is_ok());
}

#[test]
fn bikes_have_neither_value_nor_day() {
    let c = command(&["list", "G:1", "30", "2024-05-01", "Scott"]);
    let q = compile(&c, Entity::Bike, &today()).unwrap();
    assert_eq!(
        summary(&q),
        vec!["c.abbr = text G", "b.id_in_cat = ordinal 1", "b.name holds text Scott"]
    );
    assert!(q.sql().ends_with(
        " FROM bike b JOIN category c ON c.id = b.category_id WHERE c.abbr = ?1 AND b.id_in_cat = ?2 AND instr(b.name, ?3) > 0 GROUP BY b.id ORDER BY c.id LIMIT 10"
    ));
}

#[test]
fn purchases_join_bikes_as_bk() {
    let c = command(&["list", "G:1"]);
    let q = compile(&c, Entity::Buy, &today()).unwrap();
    assert_eq!(summary(&q), vec!["c.abbr = text G", "bk.id_in_cat = ordinal 1"]);
    assert!(q.sql().ends_with(
        " WHERE c.abbr = ?1 AND bk.id_in_cat = ?2 GROUP BY b.id, b.name, b.price, b.datestamp ORDER BY b.datestamp DESC LIMIT 10"
    ));
}

#[test]
fn positions_have_two_digits_from_the_tenth_on() {
    let mut c = command(&["list", "5+", "9-", "gt:2020-1-1", "lt:2021-1-1", "G:1", "word"]);
    c.lim = 0;
    let q = compile(&c, Entity::Ride, &today()).unwrap();
    assert_eq!(q.filters.len(), 7);
    let mut q = q;
    for _ in 0..4 {
        q.filters.push(bcl::query::Filter { column: "r.id", op: Op::Equal, param: Param::Id(1) });
    }
    assert!(q.sql().contains(" AND r.id = ?9 AND r.id = ?10 AND r.id = ?11 GROUP BY"));
}

#[test]
fn values_are_never_in_the_text() {
    let c = command(&["list", "ride", "x'; DROP TABLE ride;"]);
    let q = compile(&c, Entity::Ride, &today()).unwrap();
    assert!(!q.sql().contains("DROP"));
    assert_eq!(shown(&q.params()[0]), "text x'; DROP TABLE ride;");
}

/// The names of the categories that the command finds in a store that holds
/// `names`.
fn found(names: &[&str], words: &[&str]) -> Vec<String> {
    let conn = rusqlite::Connection::open_in_memory().unwrap();
    conn.execute("CREATE TABLE category(id INTEGER PRIMARY KEY, abbr TEXT, name TEXT)", []).unwrap();
    for (i, name) in names.iter().enumerate() {
        conn.execute(
            "INSERT INTO category (abbr, name) VALUES (?1, ?2)",
            [format!("C{}", i), name.to_string()],
        )
        .unwrap();
    }
    let mut line = vec!["list", "cat"];
    line.extend_from_slice(words);
    let q = compile(&command(&line), Entity::Category, &today()).unwrap();
    let texts: Vec<String> = q
        .params()
        .into_iter()
        .map(|p| match p {
            Param::Text(s) => s,
            other => panic!("a text was expected, not {:?}", other),
        })
        .collect();
    let mut stmt = conn.prepare(&q.sql()).unwrap();
    let rows = stmt
        .query_map(rusqlite::params_from_iter(texts.iter()), |row| row.get::<_, String>("name"))
        .unwrap();
    rows.map(|r| r.unwrap()).collect()
}

#[test]
fn words_are_found_letter_for_letter() {
    let names = ["Gravel bikes", "gravel bikes", "Road", "100% road", "100 road", "a_b", "axb"];
    assert_eq!(found(&names, &["Gravel"]), vec!["Gravel bikes"]);
    assert_eq!(found(&names, &["gravel", "bikes"]), vec!["gravel bikes"]);
    assert_eq!(found(&names, &["road"]), vec!["100% road", "100 road"]);
    assert_eq!(found(&names, &["0%"]), vec!["100% road"]);
    assert_eq!(found(&names, &["a_b"]), vec!["a_b"]);
    assert_eq!(found(&names, &["x'", "OR", "'1'='1"]), Vec::<String>::new());
    assert_eq!(found(&names, &[]).len(), 7);
}
