use bcl::error::{Bound, Kind, ParseError, Part, Slot};
use bcl::lookup::{lookup_message, select_one, LookupError};
use bcl::storage::{explain, store_message, Fault, Operation, StoreError};

#[test]
fn messages_of_refusals() {
    assert_eq!(ParseError::NothingToDo.message(), "Nothing to do");
    assert_eq!(ParseError::Multiple(Slot::Verb).message(), "multiple command input.");
    assert_eq!(ParseError::Multiple(Slot::Object).message(), "multiple object input.");
    assert_eq!(ParseError::Multiple(Slot::Category).message(), "multiple bike type input.");
    assert_eq!(ParseError::Multiple(Slot::BikeId).message(), "multiple bike id input.");
    assert_eq!(ParseError::Multiple(Slot::Value).message(), "multiple value input.");
    assert_eq!(ParseError::Multiple(Slot::ValueAbove).message(), "multiple max value input");
    assert_eq!(ParseError::Multiple(Slot::ValueBelow).message(), "multiple min value input");
    assert_eq!(ParseError::Multiple(Slot::StaticId).message(), "multiple static id input");
    assert_eq!(ParseError::Multiple(Slot::Year).message(), "Multiple year input");
    assert_eq!(ParseError::Multiple(Slot::Month).message(), "Multiple month input");
    assert_eq!(ParseError::Multiple(Slot::Day).message(), "Multiple day input");
    assert_eq!(ParseError::BothIds.message(), "Input dynamic id or static id, not both.");
    assert_eq!(ParseError::BadSyntax("a:b:c".to_string()).message(), "Bad syntax - 'a:b:c'!");
    assert_eq!(
        ParseError::BadDate.message(),
        "Invalid input format. Expected three parts separated by '-'"
    );
    assert_eq!(ParseError::UnexpectedKey("colour".to_string()).message(), "Unexpected key - 'colour'.");
    assert_eq!(ParseError::InvalidDate.message(), "Non valid date given.");
}

#[test]
fn messages_name_key_and_value() {
    let e = ParseError::WrongValue { key: "G".to_string(), kind: Kind::Integer, given: "x".to_string() };
    assert_eq!(e.message(), "Wrong value of 'G'. Expected integer, but given 'x'");
    let e = ParseError::WrongValue { key: "val".to_string(), kind: Kind::Float, given: "x".to_string() };
    assert_eq!(e.message(), "Wrong value of 'val'. Expected float, but given 'x'");
    let e = ParseError::WrongValue { key: "lim".to_string(), kind: Kind::Byte, given: "300".to_string() };
    assert_eq!(e.message(), "Wrong value of 'lim'. Expected int from 0 to 255, but given '300'");
    let e = ParseError::WrongValue { key: "id".to_string(), kind: Kind::Id, given: "-1".to_string() };
    assert_eq!(e.message(), "Wrong value of 'id'. Expected int, but given '-1'");
    let e = ParseError::WrongBound { bound: Bound::Above, given: "abc+".to_string() };
    assert_eq!(e.message(), "Wrong format. Expected [float]+, but given abc+");
    let e = ParseError::WrongBound { bound: Bound::Below, given: "abc-".to_string() };
    assert_eq!(e.message(), "Wrong format. Expected [float]-, but given abc-");
    let e = ParseError::WrongPart { part: Part::Year, given: "x".to_string() };
    assert_eq!(e.message(), "Wrong year format. Expected int, but given 'x'.");
    let e = ParseError::WrongPart { part: Part::Month, given: "x".to_string() };
    assert_eq!(e.message(), "Wrong month format. Expected int, but given 'x'.");
    let e = ParseError::WrongPart { part: Part::Day, given: "x".to_string() };
    assert_eq!(e.message(), "Wrong day format. Expected int, but given 'x'.");
}

#[test]
fn one_row_is_chosen() {
    assert_eq!(select_one(0, None), Err(LookupError::NotFound));
    assert_eq!(select_one(0, Some(1)), Err(LookupError::NotFound));
    assert_eq!(select_one(1, None), Ok(0));
    assert_eq!(select_one(3, None), Err(LookupError::Ambiguous));
    assert_eq!(select_one(3, Some(1)), Ok(0));
    assert_eq!(select_one(3, Some(3)), Ok(2));
    assert_eq!(select_one(3, Some(4)), Err(LookupError::NotFound));
    assert_eq!(select_one(3, Some(0)), Err(LookupError::NotFound));
    assert_eq!(select_one(1, Some(u32::MAX)), Err(LookupError::NotFound));
}

#[test]
fn lookup_messages() {
    assert_eq!(lookup_message(LookupError::NotFound, "Bike"), "Bike for your request was not found.");
    assert_eq!(
        lookup_message(LookupError::Ambiguous, "ride"),
        "Not enough params. Can't select 1 ride."
    );
}

#[test]
fn faults_of_the_store() {
    assert_eq!(explain(Operation::GetBike, Fault::NoRows), StoreError::NoSuchBike);
    assert_eq!(explain(Operation::GetBike, Fault::Constraint), StoreError::Storage);
    assert_eq!(explain(Operation::DeleteBike, Fault::Constraint), StoreError::BikeInUse);
    assert_eq!(explain(Operation::DeleteCategory, Fault::Constraint), StoreError::CategoryInUse);
    assert_eq!(explain(Operation::DeleteCategory, Fault::NoRows), StoreError::Storage);
    assert_eq!(explain(Operation::Other, Fault::Constraint), StoreError::Storage);
    assert_eq!(explain(Operation::DeleteBike, Fault::Other), StoreError::Storage);
}

#[test]
fn store_messages() {
    assert_eq!(store_message(StoreError::NoSuchBike, "G:2"), "bike - 'G:2' does not exist.");
    assert_eq!(
        store_message(StoreError::BikeInUse, ""),
        "You cannot delete a bike that has rides and chain lubrication."
    );
    assert_eq!(store_message(StoreError::CategoryInUse, ""), "You cannot delete a non-empty category.");
    assert_eq!(store_message(StoreError::Storage, ""), "The store failed.");
}
