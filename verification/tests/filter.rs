use bcl::calendar::CalendarDate;
use bcl::filter::{get_included_excluded, renumber, survives};
use bcl::models::{BuyList, RideList};
use bcl::number::Number;
use bcl::tags::tags_diff;
use std::collections::HashSet;

fn ride(key: i32) -> RideList {
    RideList {
        id: 0,
        ride_id: key,
        bike: "G:1".to_string(),
        date: CalendarDate::new(2024, 5, 1).unwrap(),
        distance: Number::parse("12.5").unwrap(),
        tags: String::new(),
        annotation: String::new(),
    }
}

fn set(ids: &[i32]) -> HashSet<i32> {
    ids.iter().copied().collect()
}

#[test]
fn every_wanted_tag_and_no_unwanted_one() {
    // road: 1, 2, 3; commute: 1, 3; broken: 3
    let wanted = vec![vec![1, 2, 3], vec![1, 3]];
    let unwanted = vec![vec![3]];
    let (keep, drop) = get_included_excluded(&wanted, &unwanted);
    assert_eq!(keep, set(&[1, 3]));
    assert_eq!(drop, set(&[3]));
    assert!(survives(1, &keep, &drop));
    assert!(!survives(2, &keep, &drop));
    assert!(!survives(3, &keep, &drop));
}

#[test]
fn no_tags_keep_everything() {
    let (keep, drop) = get_included_excluded(&vec![], &vec![]);
    assert!(keep.is_empty());
    assert!(drop.is_empty());
    assert!(survives(5, &keep, &drop));
}

#[test]
fn unwanted_tags_are_united() {
    let (keep, drop) = get_included_excluded(&vec![], &vec![vec![1, 2], vec![], vec![2, 9]]);
    assert!(keep.is_empty());
    assert_eq!(drop, set(&[1, 2, 9]));
    assert!(!survives(9, &keep, &drop));
    assert!(survives(3, &keep, &drop));
}

#[test]
fn wanted_tags_are_intersected() {
    let (keep, _) = get_included_excluded(&vec![vec![1, 2, 2, 5], vec![5, 2], vec![2, 7, 5]], &vec![]);
    assert_eq!(keep, set(&[2, 5]));
    let (keep, _) = get_included_excluded(&vec![vec![1, 2], vec![]], &vec![]);
    assert!(keep.is_empty());
}

#[test]
fn rows_that_stay_are_numbered_from_one() {
    let rows: Vec<RideList> = (101..=110).map(ride).collect();
    let out = renumber(rows, &set(&[109, 103, 106]), &set(&[]));
    let got: Vec<(i32, i32)> = out.iter().map(|r| (r.id, r.ride_id)).collect();
    assert_eq!(got, vec![(1, 103), (2, 106), (3, 109)]);
    assert_eq!(out[0].bike, "G:1");
    assert_eq!(out[0].distance.as_str(), "12.5");
}

#[test]
fn numbering_without_tags() {
    let rows: Vec<RideList> = vec![ride(9), ride(4), ride(7)];
    let out = renumber(rows, &set(&[]), &set(&[4]));
    let got: Vec<(i32, i32)> = out.iter().map(|r| (r.id, r.ride_id)).collect();
    assert_eq!(got, vec![(1, 9), (2, 7)]);
    let none: Vec<RideList> = vec![];
    assert!(renumber(none, &set(&[]), &set(&[])).is_empty());
}

#[test]
fn purchases_are_numbered_by_their_key() {
    let buy = |key: i32| BuyList {
        id: 77,
        buy_id: key,
        target: String::new(),
        tags: "road".to_string(),
        name: "tyre".to_string(),
        price: Number::parse("30").unwrap(),
        date: CalendarDate::new(2024, 5, 1).unwrap(),
    };
    let out = renumber(vec![buy(5), buy(6)], &set(&[6]), &set(&[]));
    assert_eq!(out.len(), 1);
    assert_eq!((out[0].id, out[0].buy_id), (1, 6));
    assert_eq!(out[0].name, "tyre");
}

#[test]
fn tags_of_one_list_and_not_the_other() {
    let d = tags_diff("road, commute, rain", "commute");
    assert_eq!(d.names().clone(), vec!["road".to_string(), "rain".to_string()]);
    let d = tags_diff("road, road, rain", "");
    assert_eq!(d.names().clone(), vec!["road".to_string(), "rain".to_string()]);
    let d = tags_diff("", "");
    assert!(d.is_empty());
    let d = tags_diff("", "road");
    assert_eq!(d.names().clone(), vec!["".to_string()]);
    let d = tags_diff("road,rain", "road");
    assert_eq!(d.names().clone(), vec!["road,rain".to_string()]);
}

#[test]
fn tag_sets_hold_each_name_once() {
    let mut t = bcl::tags::TagSet::new();
    assert!(t.is_empty());
    assert!(t.insert("road".to_string()));
    assert!(!t.insert("road".to_string()));
    assert!(t.insert("rain".to_string()));
    assert_eq!(t.len(), 2);
    assert_eq!(t.copy().names().clone(), vec!["road".to_string(), "rain".to_string()]);
    assert!(bcl::tags::has_name(t.names(), "rain"));
}
