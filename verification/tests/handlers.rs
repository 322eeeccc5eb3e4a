use bcl::calendar::CalendarDate;
use bcl::command::Command;
use bcl::parser::bike_code;
use bcl::plan::{
    asks_update, choice_of, note_of, ready_to_add, renames, selector, tags_to_delete, Choice,
    PlanError, Selector,
};
use bcl::query::{compile, Entity, Op, Param};
use bcl::route::{deals_with, handler_target, route, target_of, Handler, RouteError, Target};
use bcl::statement::{delete_tags_statement, tagged_statement, update_statement};

fn command(words: &[&str]) -> Command {
    let args: Vec<String> = words.iter().map(|w| w.to_string()).collect();
    Command::classify(&args, &vec!["G".to_string()], &CalendarDate::new(2024, 6, 10).unwrap())
        .unwrap()
}

#[test]
fn targets_by_name() {
    assert_eq!(target_of("bike"), Some(Target::Bike));
    assert_eq!(target_of("buy"), Some(Target::Buy));
    assert_eq!(target_of("cat"), Some(Target::Cat));
    assert_eq!(target_of("lub"), Some(Target::Lub));
    assert_eq!(target_of("ride"), Some(Target::Ride));
    assert_eq!(target_of("tag"), Some(Target::Tag));
    assert_eq!(target_of("Bike"), None);
    assert_eq!(target_of(""), None);
}

#[test]
fn what_each_handler_deals_with() {
    let all = [Target::Bike, Target::Buy, Target::Cat, Target::Lub, Target::Ride, Target::Tag];
    for t in all {
        assert!(deals_with(Handler::List, t));
        assert!(deals_with(Handler::Delete, t));
        assert!(deals_with(Handler::Update, t));
        assert_eq!(deals_with(Handler::Add, t), t != Target::Tag);
        assert_eq!(deals_with(Handler::Edit, t), t != Target::Tag);
        assert_eq!(deals_with(Handler::Editor, t), t != Target::Tag);
        assert_eq!(
            deals_with(Handler::Info, t),
            t == Target::Bike || t == Target::Cat || t == Target::Lub
        );
    }
    assert_eq!(handler_target(Handler::Add, "tag"), None);
    assert_eq!(handler_target(Handler::Add, "ride"), Some(Target::Ride));
    assert_eq!(handler_target(Handler::Info, "ride"), None);
    assert_eq!(handler_target(Handler::List, "wheel"), None);
}

#[test]
fn routes() {
    assert_eq!(route(&command(&["add", "ride"])), Ok(Some((Handler::Add, Target::Ride))));
    assert_eq!(route(&command(&["add", "tag"])), Ok(None));
    assert_eq!(route(&command(&["ls", "tag"])), Ok(Some((Handler::List, Target::Tag))));
    assert_eq!(route(&command(&["_G"])), Ok(Some((Handler::List, Target::Bike))));
    assert_eq!(route(&command(&["_wheel"])), Ok(None));
    assert_eq!(route(&command(&["mod", "ride", "id:3"])), Ok(Some((Handler::Update, Target::Ride))));
    assert_eq!(route(&command(&["mod", "tag"])), Ok(Some((Handler::Update, Target::Tag))));
    assert_eq!(route(&command(&["mod", "ride"])), Ok(Some((Handler::Editor, Target::Ride))));
    assert_eq!(route(&command(&["3", "mod", "buy"])), Ok(Some((Handler::Editor, Target::Buy))));
    assert_eq!(route(&command(&["del", "ride"])), Ok(None));
    assert_eq!(route(&command(&["edit"])), Ok(None));
    assert_eq!(route(&command(&["ride"])), Err(RouteError::NoVerb));
    assert_eq!(route(&command(&["add"])), Err(RouteError::NoObject));
    assert_eq!(route(&command(&["mod", "id:3"])), Err(RouteError::NoObject));
}

#[test]
fn selectors() {
    assert_eq!(selector(&command(&["del", "ride", "id:12"])), Some(Selector::Key(12)));
    assert_eq!(selector(&command(&["3", "del", "ride"])), Some(Selector::Position(3)));
    assert_eq!(selector(&command(&["del", "ride"])), None);
}

#[test]
fn notes() {
    assert_eq!(note_of(&command(&["add", "ride"])), None);
    assert_eq!(note_of(&command(&["add", "ride", "to", "work"])), Some("to work".to_string()));
}

#[test]
fn what_adding_needs() {
    assert!(ready_to_add(&command(&["add", "cat:G", "Gravel"]), Target::Cat));
    assert!(!ready_to_add(&command(&["add", "cat:G"]), Target::Cat));
    assert!(!ready_to_add(&command(&["add", "cat", "Gravel"]), Target::Cat));
    assert!(ready_to_add(&command(&["add", "bike:G", "Scott"]), Target::Bike));
    assert!(ready_to_add(&command(&["add", "lub", "G:1"]), Target::Lub));
    assert!(!ready_to_add(&command(&["add", "lub", "G:"]), Target::Lub));
    assert!(ready_to_add(&command(&["add", "buy", "tyre", "30"]), Target::Buy));
    assert!(!ready_to_add(&command(&["add", "buy", "tyre"]), Target::Buy));
    assert!(!ready_to_add(&command(&["add", "buy", "30"]), Target::Buy));
    assert!(ready_to_add(&command(&["add", "ride", "G:1", "25"]), Target::Ride));
    assert!(!ready_to_add(&command(&["add", "ride", "G:1"]), Target::Ride));
    assert!(!ready_to_add(&command(&["add", "ride", "25"]), Target::Ride));
    assert!(!ready_to_add(&command(&["add", "tag", "G:1", "25", "x"]), Target::Tag));
}

#[test]
fn what_an_update_asks() {
    assert_eq!(asks_update(&command(&["mod", "id:1"]), Target::Bike), Ok(false));
    assert_eq!(asks_update(&command(&["mod", "id:1", "G:"]), Target::Bike), Ok(true));
    assert_eq!(asks_update(&command(&["mod", "id:1", "day:1"]), Target::Bike), Ok(true));
    assert_eq!(asks_update(&command(&["mod", "id:1", "25"]), Target::Bike), Ok(false));
    assert_eq!(asks_update(&command(&["mod", "id:1", "25"]), Target::Buy), Ok(true));
    assert_eq!(asks_update(&command(&["mod", "id:1", "-old"]), Target::Buy), Ok(true));
    assert_eq!(asks_update(&command(&["mod", "id:1"]), Target::Buy), Ok(false));
    assert_eq!(asks_update(&command(&["mod", "id:1", "name"]), Target::Cat), Ok(true));
    assert_eq!(asks_update(&command(&["mod", "id:1", "+x"]), Target::Cat), Ok(false));
    assert_eq!(asks_update(&command(&["mod", "id:1", "G:"]), Target::Lub), Err(PlanError::HalfBike));
    assert_eq!(asks_update(&command(&["mod", "id:1", "G:2"]), Target::Lub), Ok(true));
    assert_eq!(asks_update(&command(&["mod", "id:1"]), Target::Lub), Ok(false));
    assert_eq!(asks_update(&command(&["mod", "id:1", "note"]), Target::Lub), Ok(true));
    assert_eq!(asks_update(&command(&["mod", "id:1"]), Target::Ride), Ok(false));
    assert_eq!(asks_update(&command(&["mod", "id:1", "G:"]), Target::Ride), Err(PlanError::HalfBike));
    assert_eq!(asks_update(&command(&["mod", "id:1", "G:2"]), Target::Ride), Ok(true));
    assert_eq!(asks_update(&command(&["mod", "tag"]), Target::Tag), Ok(false));
    assert_eq!(asks_update(&command(&["mod", "tag", "+a"]), Target::Tag), Ok(true));
    assert_eq!(asks_update(&command(&["mod", "tag", "-a"]), Target::Tag), Ok(false));
}

#[test]
fn tag_renames_and_deletions() {
    let c = command(&["mod", "tag", "+old", "+stale", "new", "+third"]);
    assert_eq!(renames(&c), vec![("old".to_string(), "new".to_string())]);
    let c = command(&["mod", "tag", "+old", "new", "newer"]);
    assert_eq!(renames(&c), vec![("old".to_string(), "new".to_string())]);
    let c = command(&["del", "tag", "+a", "-b", "c", "+d"]);
    assert_eq!(
        tags_to_delete(&c),
        vec!["a".to_string(), "d".to_string(), "b".to_string(), "c".to_string()]
    );
    assert!(tags_to_delete(&command(&["del", "tag"])).is_empty());
}

#[test]
fn answers() {
    let samples = ["y", "Y", " y\n", "y\r\n", "\ty ", "a", "A\n", "yes", "n", "", " ", "\n", "yy", "y y", "ay", "\u{a0}a\u{3000}", "\u{200b}y", "á", "ｙ", "1"];
    for s in samples {
        let normal = s.trim().to_lowercase();
        let expected = match normal.as_str() {
            "y" => Choice::All,
            "a" => Choice::Ask,
            _ => Choice::Cancel,
        };
        assert_eq!(choice_of(s), expected, "{:?}", s);
    }
}

#[test]
fn bike_codes() {
    assert_eq!(bike_code("G:2"), Some(("G".to_string(), 2)));
    assert_eq!(bike_code("MTB:255"), Some(("MTB".to_string(), 255)));
    assert_eq!(bike_code(":7"), Some(("".to_string(), 7)));
    assert_eq!(bike_code("G:2:x"), Some(("G".to_string(), 2)));
    assert_eq!(bike_code("G:256"), None);
    assert_eq!(bike_code("G:"), None);
    assert_eq!(bike_code("G"), None);
    assert_eq!(bike_code(""), None);
}

#[test]
fn category_queries() {
    let q = compile(&command(&["3", "list", "cat:G", "Gravel", "bikes", "lim:5"]), Entity::Category, &CalendarDate::new(2024, 6, 10).unwrap()).unwrap();
    assert_eq!(q.lim, 0);
    assert_eq!(q.sql(), "SELECT * FROM category WHERE id = ?1 AND abbr = ?2 AND instr(name, ?3) > 0");
    let params = q.params();
    assert!(matches!(params[0], Param::Id(3)));
    assert!(matches!(&params[1], Param::Text(s) if s == "G"));
    assert!(matches!(&params[2], Param::Text(s) if s == "Gravel bikes"));
    assert_eq!(q.filters[2].op, Op::Contains);
    let q = compile(&command(&["list", "cat", "id:9", "25", "2024-01-01"]), Entity::Category, &CalendarDate::new(2024, 6, 10).unwrap()).unwrap();
    assert_eq!(q.sql(), "SELECT * FROM category WHERE id = ?1");
    assert!(matches!(q.params()[0], Param::Id(9)));
    let q = compile(&command(&["list", "cat"]), Entity::Category, &CalendarDate::new(2024, 6, 10).unwrap()).unwrap();
    assert_eq!(q.sql(), "SELECT * FROM category");
}

#[test]
fn statements_for_tags() {
    assert!(tagged_statement(Entity::Buy).unwrap().contains("FROM buy b JOIN tag_to_buy"));
    assert!(tagged_statement(Entity::Ride).unwrap().contains("FROM ride r JOIN tag_to_ride"));
    assert!(tagged_statement(Entity::Ride).unwrap().ends_with("WHERE t.name = ?1"));
    assert_eq!(tagged_statement(Entity::Bike), None);
    assert_eq!(tagged_statement(Entity::Lub), None);
    assert_eq!(tagged_statement(Entity::Category), None);
    assert_eq!(delete_tags_statement(1), "DELETE FROM tag WHERE name IN (?1)");
    assert_eq!(delete_tags_statement(3), "DELETE FROM tag WHERE name IN (?1, ?2, ?3)");
    assert_eq!(delete_tags_statement(0), "DELETE FROM tag WHERE name IN ()");
}

#[test]
fn statements_for_updates() {
    let columns = vec!["name".to_string(), "datestamp".to_string()];
    assert_eq!(
        update_statement("bike", &columns),
        "UPDATE bike SET name = ?1, datestamp = ?2 WHERE id = ?3"
    );
    let columns = vec!["datestamp".to_string(), "distance".to_string(), "annotation".to_string(), "bike_id".to_string()];
    assert_eq!(
        update_statement("ride", &columns),
        "UPDATE ride SET datestamp = ?1, distance = ?2, annotation = ?3, bike_id = ?4 WHERE id = ?5"
    );
}
