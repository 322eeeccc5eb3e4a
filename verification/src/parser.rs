//! Tokens of the form `key:value`, and the category codes.

use crate::calendar::{CalendarDate, Ymd};
use crate::command::{agrees, put_category, put_object, put_val, text_of, Command, CommandView};
use crate::error::{Kind, ParseError, ParseErrorView, Slot};
use crate::number::Number;
use crate::tags::has_name;
use crate::text::{
    is_float_literal, parse_u32, parse_u8, same_text, slice_of, split, split_text, u32_of, u8_of,
};
use vstd::prelude::*;
use vstd::string::*;

verus! {

/// What the shorthand `arg`, a mark and a name, asks to list: the bikes of
/// the category where the name is a category code, else the entities that
/// the name names.
pub open spec fn list_object(arg: Seq<char>, types: Seq<Seq<char>>) -> (Seq<char>, Option<
    Seq<char>,
>) {
    if types.contains(arg.skip(1)) {
        ("bike"@, Some(arg.skip(1)))
    } else {
        (arg.skip(1), None)
    }
}

/// The command after `key:val` where `key` is a category code: `val`, if
/// there is one, is the number of the bike within the category, and `key`
/// the category.
pub open spec fn bike_named(c: CommandView, key: Seq<char>, val: Seq<char>) -> Result<
    CommandView,
    ParseErrorView,
> {
    if val.len() > 0 {
        match u8_of(val) {
            None => Err(ParseErrorView::WrongValue { key, kind: Kind::Integer, given: val }),
            Some(n) => match c.put_bike_id(n) {
                Err(e) => Err(e),
                Ok(numbered) => numbered.put_category(key),
            },
        }
    } else {
        c.put_category(key)
    }
}

/// The command after `key:val` where `key` is `cat` or `bike`: the key is the
/// kind of entity and the value the category code.
pub open spec fn object_named(c: CommandView, key: Seq<char>, val: Seq<char>) -> Result<
    CommandView,
    ParseErrorView,
> {
    match c.put_object(key) {
        Err(e) => Err(e),
        Ok(of_object) => of_object.put_category(val),
    }
}

/// The command after `val:val`, a value.
pub open spec fn value_named(c: CommandView, key: Seq<char>, val: Seq<char>) -> Result<
    CommandView,
    ParseErrorView,
> {
    if is_float_literal(val) {
        c.put_val(val)
    } else {
        Err(ParseErrorView::WrongValue { key, kind: Kind::Float, given: val })
    }
}

/// The command after `lim:val`: the limit is overwritten, whatever it was.
pub open spec fn limit_named(c: CommandView, key: Seq<char>, val: Seq<char>) -> Result<
    CommandView,
    ParseErrorView,
> {
    match u8_of(val) {
        Some(n) => Ok(CommandView { lim: n, ..c }),
        None => Err(ParseErrorView::WrongValue { key, kind: Kind::Byte, given: val }),
    }
}

/// The command after `id:val`, a key of the store: refused where a position
/// in the last list is already given.
pub open spec fn id_named(c: CommandView, key: Seq<char>, val: Seq<char>) -> Result<
    CommandView,
    ParseErrorView,
> {
    if c.id is Some {
        Err(ParseErrorView::BothIds)
    } else {
        match u32_of(val) {
            Some(n) => c.put_real_id(n),
            None => Err(ParseErrorView::WrongValue { key, kind: Kind::Id, given: val }),
        }
    }
}

/// The command after `key:val` where `key` is no category code and `val` is
/// not empty.
pub open spec fn keyed(c: CommandView, key: Seq<char>, val: Seq<char>, today: Ymd) -> Result<
    CommandView,
    ParseErrorView,
> {
    if key == "year"@ {
        c.on_date(c.date.with_year(val, today))
    } else if key == "month"@ {
        c.on_date(c.date.with_month(val, today))
    } else if key == "day"@ {
        c.on_date(c.date.with_day(val, today))
    } else if key == "date"@ {
        c.on_date(c.date.with_date(val, today))
    } else if key == "lt"@ {
        c.on_lt(c.lt.with_date(val, today))
    } else if key == "gt"@ {
        c.on_gt(c.gt.with_date(val, today))
    } else if key == "cat"@ || key == "bike"@ {
        object_named(c, key, val)
    } else if key == "val"@ {
        value_named(c, key, val)
    } else if key == "lim"@ {
        limit_named(c, key, val)
    } else if key == "id"@ {
        id_named(c, key, val)
    } else {
        Err(ParseErrorView::UnexpectedKey(key))
    }
}

/// The command after the token `arg` of the form `key:value`.
///
/// The token has to hold one colon. A key that is a category code names a
/// bike or its category. Any other key has to be one of the known keys and
/// to have a value; only `lim` may stand without one, which lifts the limit.
pub open spec fn named(c: CommandView, arg: Seq<char>, types: Seq<Seq<char>>, today: Ymd) -> Result<
    CommandView,
    ParseErrorView,
> {
    let parts = split(arg, ":"@);
    if parts.len() != 2 {
        Err(ParseErrorView::BadSyntax(arg))
    } else if types.contains(parts[0]) {
        bike_named(c, parts[0], parts[1])
    } else if parts[1].len() > 0 {
        keyed(c, parts[0], parts[1], today)
    } else if parts[0] == "lim"@ {
        Ok(CommandView { lim: 0, ..c })
    } else {
        Err(ParseErrorView::UnexpectedKey(parts[0]))
    }
}

/// Whether `val` is one of the category codes `types`.
pub fn is_bike_type(val: &str, types: &Vec<String>) -> (r: bool)
    ensures
        r == types.deep_view().contains(val@),
{
    has_name(types, val)
}

/// What the shorthand `arg`, a mark and a name, asks to list: the kind of
/// entity and, for bikes, the category.
pub fn get_list_obj(arg: String, types: &Vec<String>) -> (r: (String, Option<String>))
    requires
        arg@.len() > 0,
    ensures
        (r.0@, text_of(r.1)) == list_object(arg@, types.deep_view()),
{
    let n: usize = arg.as_str().unicode_len();
    assert(arg@.subrange(1, n as int) =~= arg@.skip(1));
    let val: String = slice_of(arg.as_str(), 1, n);
    if is_bike_type(val.as_str(), types) {
        (String::from_str("bike"), Some(val))
    } else {
        (val, None)
    }
}

/// Takes `key:val`, where `key` is a category code, into the command.
fn take_bike(command: Command, key: &str, val: &str) -> (r: Result<Command, ParseError>)
    ensures
        agrees(r, bike_named(command@, key@, val@)),
{
    let mut c: Command = command;
    if val.unicode_len() > 0 {
        match parse_u8(val) {
            Some(n) => {
                match c.bike_id.set_or_err(Some(n), ParseError::Multiple(Slot::BikeId)) {
                    Ok(()) => {},
                    Err(e) => {
                        return Err(e);
                    },
                }
            },
            None => {
                return Err(
                    ParseError::WrongValue {
                        key: String::from_str(key),
                        kind: Kind::Integer,
                        given: String::from_str(val),
                    },
                );
            },
        }
    }
    put_category(c, String::from_str(key))
}

/// Takes `key:val`, where `key` is `cat` or `bike`, into the command.
fn take_object(command: Command, key: &str, val: &str) -> (r: Result<Command, ParseError>)
    ensures
        agrees(r, object_named(command@, key@, val@)),
{
    match put_object(command, String::from_str(key)) {
        Ok(c) => put_category(c, String::from_str(val)),
        Err(e) => Err(e),
    }
}

/// Takes `val:val`, a value, into the command.
fn take_value(command: Command, key: &str, val: &str) -> (r: Result<Command, ParseError>)
    ensures
        agrees(r, value_named(command@, key@, val@)),
{
    match Number::parse(val) {
        Some(number) => put_val(command, number),
        None => Err(
            ParseError::WrongValue {
                key: String::from_str(key),
                kind: Kind::Float,
                given: String::from_str(val),
            },
        ),
    }
}

/// Takes `lim:val`, the limit, into the command.
fn take_limit(command: Command, key: &str, val: &str) -> (r: Result<Command, ParseError>)
    ensures
        agrees(r, limit_named(command@, key@, val@)),
{
    let mut c: Command = command;
    match parse_u8(val) {
        Some(n) => {
            c.lim = n;
            Ok(c)
        },
        None => Err(
            ParseError::WrongValue {
                key: String::from_str(key),
                kind: Kind::Byte,
                given: String::from_str(val),
            },
        ),
    }
}

/// Takes `id:val`, a key of the store, into the command.
fn take_id(command: Command, key: &str, val: &str) -> (r: Result<Command, ParseError>)
    ensures
        agrees(r, id_named(command@, key@, val@)),
{
    let mut c: Command = command;
    if c.id.is_some() {
        return Err(ParseError::BothIds);
    }
    match parse_u32(val) {
        Some(n) => match c.real_id.set_or_err(Some(n), ParseError::Multiple(Slot::StaticId)) {
            Ok(()) => Ok(c),
            Err(e) => Err(e),
        },
        None => Err(
            ParseError::WrongValue {
                key: String::from_str(key),
                kind: Kind::Id,
                given: String::from_str(val),
            },
        ),
    }
}

/// Takes `key:val` into the date of the command, where `key` names the date
/// or a part of it.
fn take_date(command: Command, key: &str, val: &str, today: &CalendarDate) -> (r: Result<
    Command,
    ParseError,
>)
    requires
        key@ == "year"@ || key@ == "month"@ || key@ == "day"@ || key@ == "date"@ || key@ == "lt"@
            || key@ == "gt"@,
    ensures
        agrees(r, keyed(command@, key@, val@, today@)),
{
    let mut c: Command = command;
    let done: Result<(), ParseError> = if same_text(key, "year") {
        c.date.year_from_str(val, today)
    } else if same_text(key, "month") {
        c.date.month_from_str(val, today)
    } else if same_text(key, "day") {
        c.date.day_from_str(val, today)
    } else if same_text(key, "date") {
        c.date.from_str(val, today)
    } else if same_text(key, "lt") {
        c.lt.from_str(val, today)
    } else {
        c.gt.from_str(val, today)
    };
    match done {
        Ok(()) => Ok(c),
        Err(e) => Err(e),
    }
}

/// Takes `key:val` into the command, where `key` is no category code and
/// `val` is not empty.
fn take_keyed(command: Command, key: &str, val: &str, today: &CalendarDate) -> (r: Result<
    Command,
    ParseError,
>)
    ensures
        agrees(r, keyed(command@, key@, val@, today@)),
{
    if same_text(key, "year") || same_text(key, "month") || same_text(key, "day") || same_text(
        key,
        "date",
    ) || same_text(key, "lt") || same_text(key, "gt") {
        take_date(command, key, val, today)
    } else if same_text(key, "cat") || same_text(key, "bike") {
        take_object(command, key, val)
    } else if same_text(key, "val") {
        take_value(command, key, val)
    } else if same_text(key, "lim") {
        take_limit(command, key, val)
    } else if same_text(key, "id") {
        take_id(command, key, val)
    } else {
        Err(ParseError::UnexpectedKey(String::from_str(key)))
    }
}

/// Takes the token `arg` of the form `key:value` into the command.
pub fn named_parse(command: Command, arg: String, types: &Vec<String>, today: &CalendarDate) -> (r:
    Result<Command, ParseError>)
    ensures
        agrees(r, named(command@, arg@, types.deep_view(), today@)),
{
    proof {
        reveal_strlit(":");
    }
    let parts: Vec<String> = split_text(arg.as_str(), ":");
    if parts.len() != 2 {
        return Err(ParseError::BadSyntax(arg));
    }
    let ghost texts = parts.deep_view();
    assert(texts[0] == parts@[0]@ && texts[1] == parts@[1]@);
    let key: &str = parts[0].as_str();
    let val: &str = parts[1].as_str();
    if is_bike_type(key, types) {
        take_bike(command, key, val)
    } else if val.unicode_len() > 0 {
        take_keyed(command, key, val, today)
    } else if same_text(key, "lim") {
        let mut c: Command = command;
        c.lim = 0;
        Ok(c)
    } else {
        Err(ParseError::UnexpectedKey(String::from_str(key)))
    }
}

/// The category and the number that the code of a bike names: the code is
/// the category code, a colon and the number, a byte. What follows a second
/// colon is passed over.
pub open spec fn code_read(code: Seq<char>) -> Option<(Seq<char>, u8)> {
    let parts = split(code, ":"@);
    if parts.len() < 2 {
        None
    } else {
        match u8_of(parts[1]) {
            Some(n) => Some((parts[0], n)),
            None => None,
        }
    }
}

/// The category and the number that the code of a bike names.
pub fn bike_code(code: &str) -> (r: Option<(String, u8)>)
    ensures
        match code_read(code@) {
            Some((category, number)) => r matches Some(found) && found.0@ == category && found.1
                == number,
            None => r is None,
        },
{
    proof {
        reveal_strlit(":");
    }
    let parts: Vec<String> = split_text(code, ":");
    if parts.len() < 2 {
        return None;
    }
    let ghost texts = parts.deep_view();
    assert(texts[0] == parts@[0]@ && texts[1] == parts@[1]@);
    match parse_u8(parts[1].as_str()) {
        Some(n) => Some((parts[0].clone(), n)),
        None => None,
    }
}

} // verus!
