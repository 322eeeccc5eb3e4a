//! What can be wrong with a command line.

use vstd::prelude::*;
use vstd::string::*;

verus! {

/// The parts of a command that are written once.
#[derive(Clone, Copy, Debug, PartialEq, Eq, Structural)]
pub enum Slot {
    Verb,
    Object,
    Category,
    BikeId,
    Value,
    ValueAbove,
    ValueBelow,
    StaticId,
    Year,
    Month,
    Day,
}

/// What the value of a key was expected to be.
#[derive(Clone, Copy, Debug, PartialEq, Eq, Structural)]
pub enum Kind {
    /// The number of a bike within its category.
    Integer,
    /// A price or a distance.
    Float,
    /// A count of rows, from 0 to 255.
    Byte,
    /// A key of the store.
    Id,
}

/// The two bounds that a value can be given.
#[derive(Clone, Copy, Debug, PartialEq, Eq, Structural)]
pub enum Bound {
    /// Written `[float]+`: the value is to be greater.
    Above,
    /// Written `[float]-`: the value is to be less.
    Below,
}

/// The three parts of a date.
#[derive(Clone, Copy, Debug, PartialEq, Eq, Structural)]
pub enum Part {
    Year,
    Month,
    Day,
}

/// Why a command line was refused.
#[derive(Clone, Debug, PartialEq, Eq)]
pub enum ParseError {
    /// No token is left to classify.
    NothingToDo,
    /// A part that is written once was given twice.
    Multiple(Slot),
    /// A position in the last list and a key of the store were both given.
    BothIds,
    /// A token with a colon that is not one key and one value.
    BadSyntax(String),
    /// A date that is not three parts with `-` between them.
    BadDate,
    /// The value of `key` is not of the kind that the key takes.
    WrongValue { key: String, kind: Kind, given: String },
    /// A token that ends in `+` or `-` without a number before it.
    WrongBound { bound: Bound, given: String },
    /// A part of a date that is no number, nor `now`, nor `prev`.
    WrongPart { part: Part, given: String },
    /// A key that is not known, or a known one without its value.
    UnexpectedKey(String),
    /// The date is no day of the calendar, or lies in the future.
    InvalidDate,
}

/// A `ParseError` with its texts as sequences of characters.
pub enum ParseErrorView {
    NothingToDo,
    Multiple(Slot),
    BothIds,
    BadSyntax(Seq<char>),
    BadDate,
    WrongValue { key: Seq<char>, kind: Kind, given: Seq<char> },
    WrongBound { bound: Bound, given: Seq<char> },
    WrongPart { part: Part, given: Seq<char> },
    UnexpectedKey(Seq<char>),
    InvalidDate,
}

impl View for ParseError {
    type V = ParseErrorView;

    open spec fn view(&self) -> ParseErrorView {
        match *self {
            ParseError::NothingToDo => ParseErrorView::NothingToDo,
            ParseError::Multiple(slot) => ParseErrorView::Multiple(slot),
            ParseError::BothIds => ParseErrorView::BothIds,
            ParseError::BadSyntax(token) => ParseErrorView::BadSyntax(token@),
            ParseError::BadDate => ParseErrorView::BadDate,
            ParseError::WrongValue { key, kind, given } => ParseErrorView::WrongValue {
                key: key@,
                kind,
                given: given@,
            },
            ParseError::WrongBound { bound, given } => ParseErrorView::WrongBound {
                bound,
                given: given@,
            },
            ParseError::WrongPart { part, given } => ParseErrorView::WrongPart {
                part,
                given: given@,
            },
            ParseError::UnexpectedKey(key) => ParseErrorView::UnexpectedKey(key@),
            ParseError::InvalidDate => ParseErrorView::InvalidDate,
        }
    }
}

/// What is said where a part was given twice.
pub open spec fn multiple_text(slot: Slot) -> Seq<char> {
    match slot {
        Slot::Verb => "multiple command input."@,
        Slot::Object => "multiple object input."@,
        Slot::Category => "multiple bike type input."@,
        Slot::BikeId => "multiple bike id input."@,
        Slot::Value => "multiple value input."@,
        Slot::ValueAbove => "multiple max value input"@,
        Slot::ValueBelow => "multiple min value input"@,
        Slot::StaticId => "multiple static id input"@,
        Slot::Year => "Multiple year input"@,
        Slot::Month => "Multiple month input"@,
        Slot::Day => "Multiple day input"@,
    }
}

/// How a kind of value is called.
pub open spec fn kind_text(kind: Kind) -> Seq<char> {
    match kind {
        Kind::Integer => "integer"@,
        Kind::Float => "float"@,
        Kind::Byte => "int from 0 to 255"@,
        Kind::Id => "int"@,
    }
}

/// How a bound is written.
pub open spec fn bound_text(bound: Bound) -> Seq<char> {
    match bound {
        Bound::Above => "[float]+"@,
        Bound::Below => "[float]-"@,
    }
}

/// How a part of a date is called.
pub open spec fn part_text(part: Part) -> Seq<char> {
    match part {
        Part::Year => "year"@,
        Part::Month => "month"@,
        Part::Day => "day"@,
    }
}

/// What is said of a refusal. A key or a value that was refused is named as
/// it was given.
pub open spec fn message_text(e: ParseErrorView) -> Seq<char> {
    match e {
        ParseErrorView::NothingToDo => "Nothing to do"@,
        ParseErrorView::Multiple(slot) => multiple_text(slot),
        ParseErrorView::BothIds => "Input dynamic id or static id, not both."@,
        ParseErrorView::BadSyntax(token) => "Bad syntax - '"@ + token + "'!"@,
        ParseErrorView::BadDate => "Invalid input format. Expected three parts separated by '-'"@,
        ParseErrorView::WrongValue { key, kind, given } => "Wrong value of '"@ + key
            + "'. Expected "@ + kind_text(kind) + ", but given '"@ + given + "'"@,
        ParseErrorView::WrongBound { bound, given } => "Wrong format. Expected "@ + bound_text(
            bound,
        ) + ", but given "@ + given,
        ParseErrorView::WrongPart { part, given } => "Wrong "@ + part_text(part)
            + " format. Expected int, but given '"@ + given + "'."@,
        ParseErrorView::UnexpectedKey(key) => "Unexpected key - '"@ + key + "'."@,
        ParseErrorView::InvalidDate => "Non valid date given."@,
    }
}

/// What is said where a part was given twice.
fn multiple_message(slot: Slot) -> (r: &'static str)
    ensures
        r@ == multiple_text(slot),
{
    match slot {
        Slot::Verb => "multiple command input.",
        Slot::Object => "multiple object input.",
        Slot::Category => "multiple bike type input.",
        Slot::BikeId => "multiple bike id input.",
        Slot::Value => "multiple value input.",
        Slot::ValueAbove => "multiple max value input",
        Slot::ValueBelow => "multiple min value input",
        Slot::StaticId => "multiple static id input",
        Slot::Year => "Multiple year input",
        Slot::Month => "Multiple month input",
        Slot::Day => "Multiple day input",
    }
}

/// How a kind of value is called.
fn kind_name(kind: Kind) -> (r: &'static str)
    ensures
        r@ == kind_text(kind),
{
    match kind {
        Kind::Integer => "integer",
        Kind::Float => "float",
        Kind::Byte => "int from 0 to 255",
        Kind::Id => "int",
    }
}

/// How a bound is written.
fn bound_name(bound: Bound) -> (r: &'static str)
    ensures
        r@ == bound_text(bound),
{
    match bound {
        Bound::Above => "[float]+",
        Bound::Below => "[float]-",
    }
}

/// How a part of a date is called.
fn part_name(part: Part) -> (r: &'static str)
    ensures
        r@ == part_text(part),
{
    match part {
        Part::Year => "year",
        Part::Month => "month",
        Part::Day => "day",
    }
}

impl ParseError {
    /// What is said of the refusal.
    pub fn message(&self) -> (r: String)
        ensures
            r@ == message_text(self@),
    {
        match self {
            ParseError::NothingToDo => String::from_str("Nothing to do"),
            ParseError::Multiple(slot) => String::from_str(multiple_message(*slot)),
            ParseError::BothIds => String::from_str("Input dynamic id or static id, not both."),
            ParseError::BadSyntax(token) => {
                let mut r: String = String::from_str("Bad syntax - '");
                r.append(token.as_str());
                r.append("'!");
                r
            },
            ParseError::BadDate => String::from_str(
                "Invalid input format. Expected three parts separated by '-'",
            ),
            ParseError::WrongValue { key, kind, given } => {
                let mut r: String = String::from_str("Wrong value of '");
                r.append(key.as_str());
                r.append("'. Expected ");
                r.append(kind_name(*kind));
                r.append(", but given '");
                r.append(given.as_str());
                r.append("'");
                r
            },
            ParseError::WrongBound { bound, given } => {
                let mut r: String = String::from_str("Wrong format. Expected ");
                r.append(bound_name(*bound));
                r.append(", but given ");
                r.append(given.as_str());
                r
            },
            ParseError::WrongPart { part, given } => {
                let mut r: String = String::from_str("Wrong ");
                r.append(part_name(*part));
                r.append(" format. Expected int, but given '");
                r.append(given.as_str());
                r.append("'.");
                r
            },
            ParseError::UnexpectedKey(key) => {
                let mut r: String = String::from_str("Unexpected key - '");
                r.append(key.as_str());
                r.append("'.");
                r
            },
            ParseError::InvalidDate => String::from_str("Non valid date given."),
        }
    }
}

} // verus!
