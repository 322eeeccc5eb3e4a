//! Refusals of the store, in the words of bikes and categories.
//!
//! The store is reached by the program around the library, which says of
//! each failure what kind of fault it was; what the fault means for the
//! operation that met it is decided here.

use vstd::prelude::*;
use vstd::string::*;

verus! {

/// What went wrong in the store, as far as it matters here.
#[derive(Clone, Copy, Debug, PartialEq, Eq, Structural)]
pub enum Fault {
    /// A query that was to give a row gave none.
    NoRows,
    /// A rule of the store forbids the change: a key is still referred to,
    /// or a value has to be unique.
    Constraint,
    /// Anything else.
    Other,
}

/// What was asked of the store.
#[derive(Clone, Copy, Debug, PartialEq, Eq, Structural)]
pub enum Operation {
    /// The bike of a category with a number.
    GetBike,
    /// To delete a bike.
    DeleteBike,
    /// To delete a category.
    DeleteCategory,
    /// Anything else.
    Other,
}

/// A refusal of the store as the user is told of it.
#[derive(Clone, Copy, Debug, PartialEq, Eq, Structural)]
pub enum StoreError {
    /// There is no such bike.
    NoSuchBike,
    /// The bike has rides or chain lubrications.
    BikeInUse,
    /// The category has bikes.
    CategoryInUse,
    /// The store failed in a way that has no words of its own.
    Storage,
}

/// What a fault means for an operation. That a bike is not there is told
/// apart from every other failure of a lookup; that a bike or a category is
/// still in use is told apart from every other failure to delete it.
pub open spec fn explained(operation: Operation, fault: Fault) -> StoreError {
    match (operation, fault) {
        (Operation::GetBike, Fault::NoRows) => StoreError::NoSuchBike,
        (Operation::DeleteBike, Fault::Constraint) => StoreError::BikeInUse,
        (Operation::DeleteCategory, Fault::Constraint) => StoreError::CategoryInUse,
        _ => StoreError::Storage,
    }
}

/// What a fault means for an operation.
pub fn explain(operation: Operation, fault: Fault) -> (r: StoreError)
    ensures
        r == explained(operation, fault),
{
    match (operation, fault) {
        (Operation::GetBike, Fault::NoRows) => StoreError::NoSuchBike,
        (Operation::DeleteBike, Fault::Constraint) => StoreError::BikeInUse,
        (Operation::DeleteCategory, Fault::Constraint) => StoreError::CategoryInUse,
        _ => StoreError::Storage,
    }
}

/// What is said of a refusal of the store. `code` names the bike that was
/// looked up.
pub open spec fn store_text(e: StoreError, code: Seq<char>) -> Seq<char> {
    match e {
        StoreError::NoSuchBike => "bike - '"@ + code + "' does not exist."@,
        StoreError::BikeInUse => "You cannot delete a bike that has rides and chain lubrication."@,
        StoreError::CategoryInUse => "You cannot delete a non-empty category."@,
        StoreError::Storage => "The store failed."@,
    }
}

/// What is said of a refusal of the store.
pub fn store_message(e: StoreError, code: &str) -> (r: String)
    ensures
        r@ == store_text(e, code@),
{
    match e {
        StoreError::NoSuchBike => {
            let mut r: String = String::from_str("bike - '");
            r.append(code);
            r.append("' does not exist.");
            r
        },
        StoreError::BikeInUse => String::from_str(
            "You cannot delete a bike that has rides and chain lubrication.",
        ),
        StoreError::CategoryInUse => String::from_str("You cannot delete a non-empty category."),
        StoreError::Storage => String::from_str("The store failed."),
    }
}

} // verus!
