//! The command that a command line asks for, and the classification of
//! tokens that builds it.
//!
//! Each token is classified by the first shape that it has, in this order: a
//! verb, an entity, a `key:value` pair, a date with two hyphens, a category
//! shorthand after `_`, a tag to include after `+`, a tag to exclude after
//! `-`, a lower bound before `+`, an upper bound before `-`, a value, a word
//! of the annotation. The order is part of the contract: a `key:value` pair
//! may hold hyphens, so the colon is tested before the hyphens are counted.

use crate::calendar::{CalendarDate, Ymd};
use crate::date::Date;
use crate::error::{Bound, ParseError, ParseErrorView, Slot};
use crate::field::Field;
use crate::number::{literal_of, Number};
use crate::parser::{get_list_obj, list_object, named, named_parse};
use crate::tags::{with_tag, TagSet};
use crate::text::{
    chars_of, count_char, count_of, has_char, is_float_literal, parse_u32, same_text, slice_of,
    trim_end, trimmed_len, u32_of,
};
use vstd::prelude::*;
use vstd::string::*;

verus! {

/// What a command line asks for.
#[derive(Debug, Clone)]
pub struct Command {
    /// The verb: `add`, `del`, `mod`, `edit`, `list`, `graph` or `sync`.
    pub funk: Field<String>,
    /// The kind of entity that the verb is about.
    pub object: Field<String>,
    /// The code of a category of bikes.
    pub category: Field<String>,
    /// The words that are nothing else, in their order.
    pub annotation: Vec<String>,
    /// The date.
    pub date: Date,
    /// The date that the entities are to lie before.
    pub lt: Date,
    /// The date that the entities are to lie after.
    pub gt: Date,
    /// A position in the list that the last query gave, counted from 1.
    pub id: Field<u32>,
    /// A key of the store.
    pub real_id: Field<u32>,
    /// The number of a bike within its category.
    pub bike_id: Field<u8>,
    /// The value: a price or a distance.
    pub val: Field<Number>,
    /// What the value is to be less than.
    pub val_lt: Field<Number>,
    /// What the value is to be greater than.
    pub val_gt: Field<Number>,
    /// The most rows that a list may have; 0 for no limit.
    pub lim: u8,
    /// The tags that an entity must have, all of them.
    pub include_tags: TagSet,
    /// The tags of which an entity may have none.
    pub exclude_tags: TagSet,
}

/// A command with its texts as sequences of characters.
pub struct CommandView {
    pub funk: Option<Seq<char>>,
    pub object: Option<Seq<char>>,
    pub category: Option<Seq<char>>,
    pub annotation: Seq<Seq<char>>,
    pub date: Date,
    pub lt: Date,
    pub gt: Date,
    pub id: Option<u32>,
    pub real_id: Option<u32>,
    pub bike_id: Option<u8>,
    pub val: Option<Seq<char>>,
    pub val_lt: Option<Seq<char>>,
    pub val_gt: Option<Seq<char>>,
    pub lim: u8,
    pub include_tags: Seq<Seq<char>>,
    pub exclude_tags: Seq<Seq<char>>,
}

/// The characters of an optional text.
pub open spec fn text_of(s: Option<String>) -> Option<Seq<char>> {
    match s {
        Some(x) => Some(x@),
        None => None,
    }
}

impl View for Command {
    type V = CommandView;

    open spec fn view(&self) -> CommandView {
        CommandView {
            funk: text_of(self.funk@),
            object: text_of(self.object@),
            category: text_of(self.category@),
            annotation: self.annotation.deep_view(),
            date: self.date,
            lt: self.lt,
            gt: self.gt,
            id: self.id@,
            real_id: self.real_id@,
            bike_id: self.bike_id@,
            val: literal_of(self.val@),
            val_lt: literal_of(self.val_lt@),
            val_gt: literal_of(self.val_gt@),
            lim: self.lim,
            include_tags: self.include_tags@,
            exclude_tags: self.exclude_tags@,
        }
    }
}

/// Whether `t` is a verb.
pub open spec fn is_verb(t: Seq<char>) -> bool {
    t == "add"@ || t == "del"@ || t == "mod"@ || t == "edit"@ || t == "list"@ || t == "graph"@ || t
        == "sync"@
}

/// Whether `t` is the name of a kind of entity that stands for itself.
pub open spec fn is_entity(t: Seq<char>) -> bool {
    t == "buy"@ || t == "lub"@ || t == "ride"@ || t == "cat"@ || t == "tag"@
}

impl CommandView {
    /// The command before any token: nothing set, a limit of 10 rows, and
    /// `id` as the position that stood before the tokens.
    pub open spec fn fresh(id: Option<u32>) -> CommandView {
        CommandView {
            funk: None,
            object: None,
            category: None,
            annotation: Seq::empty(),
            date: Date { year: None, month: None, day: None },
            lt: Date { year: None, month: None, day: None },
            gt: Date { year: None, month: None, day: None },
            id,
            real_id: None,
            bike_id: None,
            val: None,
            val_lt: None,
            val_gt: None,
            lim: 10,
            include_tags: Seq::empty(),
            exclude_tags: Seq::empty(),
        }
    }

    /// Writes the verb, once.
    pub open spec fn put_verb(self, verb: Seq<char>) -> Result<CommandView, ParseErrorView> {
        if self.funk is Some {
            Err(ParseErrorView::Multiple(Slot::Verb))
        } else {
            Ok(CommandView { funk: Some(verb), ..self })
        }
    }

    /// Writes the kind of entity, once.
    pub open spec fn put_object(self, object: Seq<char>) -> Result<CommandView, ParseErrorView> {
        if self.object is Some {
            Err(ParseErrorView::Multiple(Slot::Object))
        } else {
            Ok(CommandView { object: Some(object), ..self })
        }
    }

    /// Writes the category code, once.
    pub open spec fn put_category(self, code: Seq<char>) -> Result<CommandView, ParseErrorView> {
        if self.category is Some {
            Err(ParseErrorView::Multiple(Slot::Category))
        } else {
            Ok(CommandView { category: Some(code), ..self })
        }
    }

    /// Writes the number of the bike within its category, once.
    pub open spec fn put_bike_id(self, n: u8) -> Result<CommandView, ParseErrorView> {
        if self.bike_id is Some {
            Err(ParseErrorView::Multiple(Slot::BikeId))
        } else {
            Ok(CommandView { bike_id: Some(n), ..self })
        }
    }

    /// Writes the key of the store, once.
    pub open spec fn put_real_id(self, n: u32) -> Result<CommandView, ParseErrorView> {
        if self.real_id is Some {
            Err(ParseErrorView::Multiple(Slot::StaticId))
        } else {
            Ok(CommandView { real_id: Some(n), ..self })
        }
    }

    /// Writes the value, once.
    pub open spec fn put_val(self, literal: Seq<char>) -> Result<CommandView, ParseErrorView> {
        if self.val is Some {
            Err(ParseErrorView::Multiple(Slot::Value))
        } else {
            Ok(CommandView { val: Some(literal), ..self })
        }
    }

    /// Writes a bound of the value, once.
    pub open spec fn put_bound(self, bound: Bound, literal: Seq<char>) -> Result<
        CommandView,
        ParseErrorView,
    > {
        match bound {
            Bound::Above => if self.val_gt is Some {
                Err(ParseErrorView::Multiple(Slot::ValueAbove))
            } else {
                Ok(CommandView { val_gt: Some(literal), ..self })
            },
            Bound::Below => if self.val_lt is Some {
                Err(ParseErrorView::Multiple(Slot::ValueBelow))
            } else {
                Ok(CommandView { val_lt: Some(literal), ..self })
            },
        }
    }

    /// The command with `date` as its date, where there is one.
    pub open spec fn on_date(self, date: Result<Date, ParseErrorView>) -> Result<
        CommandView,
        ParseErrorView,
    > {
        match date {
            Ok(d) => Ok(CommandView { date: d, ..self }),
            Err(e) => Err(e),
        }
    }

    /// The command with `date` as the date to lie before, where there is one.
    pub open spec fn on_lt(self, date: Result<Date, ParseErrorView>) -> Result<
        CommandView,
        ParseErrorView,
    > {
        match date {
            Ok(d) => Ok(CommandView { lt: d, ..self }),
            Err(e) => Err(e),
        }
    }

    /// The command with `date` as the date to lie after, where there is one.
    pub open spec fn on_gt(self, date: Result<Date, ParseErrorView>) -> Result<
        CommandView,
        ParseErrorView,
    > {
        match date {
            Ok(d) => Ok(CommandView { gt: d, ..self }),
            Err(e) => Err(e),
        }
    }
}

/// The command after the shorthand `t`, an underscore and a name: the verb
/// is `list`; a name that is a category code asks for the bikes of that
/// category, any other name is the kind of entity.
pub open spec fn shorthand(c: CommandView, t: Seq<char>, types: Seq<Seq<char>>) -> Result<
    CommandView,
    ParseErrorView,
> {
    match c.put_verb("list"@) {
        Err(e) => Err(e),
        Ok(listing) => {
            let (object, category) = list_object(t, types);
            match listing.put_object(object) {
                Err(e) => Err(e),
                Ok(of_object) => match category {
                    Some(code) => of_object.put_category(code),
                    None => Ok(of_object),
                },
            }
        },
    }
}

/// The command after the token `t` that ends in the mark of `bound`: what
/// stands before the marks is the bound, and has to be a number.
pub open spec fn bounded(c: CommandView, bound: Bound, t: Seq<char>) -> Result<
    CommandView,
    ParseErrorView,
> {
    let mark = match bound {
        Bound::Above => '+',
        Bound::Below => '-',
    };
    if is_float_literal(trim_end(t, mark)) {
        c.put_bound(bound, trim_end(t, mark))
    } else {
        Err(ParseErrorView::WrongBound { bound, given: t })
    }
}

/// The command after one more token, or why the token is refused.
pub open spec fn step(c: CommandView, t: Seq<char>, types: Seq<Seq<char>>, today: Ymd) -> Result<
    CommandView,
    ParseErrorView,
> {
    if is_verb(t) {
        c.put_verb(t)
    } else if t == "ls"@ {
        c.put_verb("list"@)
    } else if is_entity(t) {
        c.put_object(t)
    } else if t.contains(':') {
        named(c, t, types, today)
    } else if count_char(t, '-') == 2 {
        c.on_date(c.date.with_date(t, today))
    } else if t.len() > 0 && t[0] == '_' {
        shorthand(c, t, types)
    } else if t.len() > 0 && t[0] == '+' {
        Ok(CommandView { include_tags: with_tag(c.include_tags, t.skip(1)), ..c })
    } else if t.len() > 0 && t[0] == '-' {
        Ok(CommandView { exclude_tags: with_tag(c.exclude_tags, t.skip(1)), ..c })
    } else if t.len() > 0 && t.last() == '+' {
        bounded(c, Bound::Above, t)
    } else if t.len() > 0 && t.last() == '-' {
        bounded(c, Bound::Below, t)
    } else if is_float_literal(t) {
        c.put_val(t)
    } else {
        Ok(CommandView { annotation: c.annotation.push(t), ..c })
    }
}

/// The command after the tokens `tokens`, taken from the left, or the first
/// refusal.
pub open spec fn fold(
    c: CommandView,
    tokens: Seq<Seq<char>>,
    types: Seq<Seq<char>>,
    today: Ymd,
) -> Result<CommandView, ParseErrorView>
    decreases tokens.len(),
{
    if tokens.len() == 0 {
        Ok(c)
    } else {
        match step(c, tokens[0], types, today) {
            Ok(next) => fold(next, tokens.skip(1), types, today),
            Err(e) => Err(e),
        }
    }
}

/// The command that the arguments `args` ask for on the day `today`, with
/// `types` as the category codes that are known.
///
/// A first argument that is a number is the position in the last list, and
/// no token. Something has to be left after it. The tokens are then
/// classified from the left. At the end the date, resolved on `today`, has to
/// be a day of the calendar that is not after `today`.
pub open spec fn classified(args: Seq<Seq<char>>, types: Seq<Seq<char>>, today: Ymd) -> Result<
    CommandView,
    ParseErrorView,
> {
    if args.len() == 0 {
        Err(ParseErrorView::NothingToDo)
    } else {
        let id = u32_of(args[0]);
        let tokens = if id is Some {
            args.skip(1)
        } else {
            args
        };
        if tokens.len() == 0 {
            Err(ParseErrorView::NothingToDo)
        } else {
            match fold(CommandView::fresh(id), tokens, types, today) {
                Err(e) => Err(e),
                Ok(c) => if c.date.valid_on(today) {
                    Ok(c)
                } else {
                    Err(ParseErrorView::InvalidDate)
                },
            }
        }
    }
}

/// Whether what a function returned is what its model says.
pub open spec fn agrees(
    r: Result<Command, ParseError>,
    model: Result<CommandView, ParseErrorView>,
) -> bool {
    match (r, model) {
        (Ok(c), Ok(v)) => c@ == v,
        (Err(e), Err(x)) => e@ == x,
        _ => false,
    }
}

/// Writes the verb, once.
pub fn put_verb(command: Command, verb: &str) -> (r: Result<Command, ParseError>)
    ensures
        agrees(r, command@.put_verb(verb@)),
{
    let mut c: Command = command;
    match c.funk.set_or_err(Some(String::from_str(verb)), ParseError::Multiple(Slot::Verb)) {
        Ok(()) => Ok(c),
        Err(e) => Err(e),
    }
}

/// Writes the kind of entity, once.
pub fn put_object(command: Command, object: String) -> (r: Result<Command, ParseError>)
    ensures
        agrees(r, command@.put_object(object@)),
{
    let mut c: Command = command;
    match c.object.set_or_err(Some(object), ParseError::Multiple(Slot::Object)) {
        Ok(()) => Ok(c),
        Err(e) => Err(e),
    }
}

/// Writes the category code, once.
pub fn put_category(command: Command, code: String) -> (r: Result<Command, ParseError>)
    ensures
        agrees(r, command@.put_category(code@)),
{
    let mut c: Command = command;
    match c.category.set_or_err(Some(code), ParseError::Multiple(Slot::Category)) {
        Ok(()) => Ok(c),
        Err(e) => Err(e),
    }
}

/// Writes the value, once.
pub fn put_val(command: Command, number: Number) -> (r: Result<Command, ParseError>)
    ensures
        agrees(r, command@.put_val(number@)),
{
    let mut c: Command = command;
    match c.val.set_or_err(Some(number), ParseError::Multiple(Slot::Value)) {
        Ok(()) => Ok(c),
        Err(e) => Err(e),
    }
}

/// Writes a bound of the value, once.
fn put_bound(command: Command, bound: Bound, number: Number) -> (r: Result<Command, ParseError>)
    ensures
        agrees(r, command@.put_bound(bound, number@)),
{
    let mut c: Command = command;
    match bound {
        Bound::Above => match c.val_gt.set_or_err(
            Some(number),
            ParseError::Multiple(Slot::ValueAbove),
        ) {
            Ok(()) => Ok(c),
            Err(e) => Err(e),
        },
        Bound::Below => match c.val_lt.set_or_err(
            Some(number),
            ParseError::Multiple(Slot::ValueBelow),
        ) {
            Ok(()) => Ok(c),
            Err(e) => Err(e),
        },
    }
}

/// Takes the shorthand `arg`, an underscore and a name, into the command.
fn take_shorthand(command: Command, arg: &str, types: &Vec<String>) -> (r: Result<
    Command,
    ParseError,
>)
    requires
        arg@.len() > 0,
    ensures
        agrees(r, shorthand(command@, arg@, types.deep_view())),
{
    let listing: Command = match put_verb(command, "list") {
        Ok(c) => c,
        Err(e) => {
            return Err(e);
        },
    };
    let (object, category): (String, Option<String>) = get_list_obj(String::from_str(arg), types);
    let of_object: Command = match put_object(listing, object) {
        Ok(c) => c,
        Err(e) => {
            return Err(e);
        },
    };
    match category {
        Some(code) => put_category(of_object, code),
        None => Ok(of_object),
    }
}

/// Takes the token `arg`, which ends in the mark of `bound`, into the command.
fn take_bound(command: Command, bound: Bound, arg: &str, chars: &Vec<char>) -> (r: Result<
    Command,
    ParseError,
>)
    requires
        chars@ == arg@,
    ensures
        agrees(r, bounded(command@, bound, arg@)),
{
    let mark: char = match bound {
        Bound::Above => '+',
        Bound::Below => '-',
    };
    let n: usize = trimmed_len(chars, mark);
    assert(arg@.subrange(0, n as int) =~= arg@.take(n as int));
    let literal: String = slice_of(arg, 0, n);
    match Number::parse(literal.as_str()) {
        Some(number) => put_bound(command, bound, number),
        None => Err(ParseError::WrongBound { bound, given: String::from_str(arg) }),
    }
}

/// Whether `arg` is a verb.
fn verb(arg: &str) -> (r: bool)
    ensures
        r == is_verb(arg@),
{
    same_text(arg, "add") || same_text(arg, "del") || same_text(arg, "mod") || same_text(
        arg,
        "edit",
    ) || same_text(arg, "list") || same_text(arg, "graph") || same_text(arg, "sync")
}

/// Whether `arg` is the name of a kind of entity that stands for itself.
fn entity(arg: &str) -> (r: bool)
    ensures
        r == is_entity(arg@),
{
    same_text(arg, "buy") || same_text(arg, "lub") || same_text(arg, "ride") || same_text(
        arg,
        "cat",
    ) || same_text(arg, "tag")
}

/// Takes a token that is no verb, entity or `key:value` pair into the command.
fn take_plain(command: Command, arg: &str, chars: &Vec<char>, types: &Vec<String>, today: &CalendarDate) -> (r:
    Result<Command, ParseError>)
    requires
        chars@ == arg@,
        !is_verb(arg@),
        arg@ != "ls"@,
        !is_entity(arg@),
        !arg@.contains(':'),
    ensures
        agrees(r, step(command@, arg@, types.deep_view(), today@)),
{
    let n: usize = chars.len();
    let mut c: Command = command;
    if count_of(chars, '-') == 2 {
        match c.date.from_str(arg, today) {
            Ok(()) => Ok(c),
            Err(e) => Err(e),
        }
    } else if n > 0 && chars[0] == '_' {
        take_shorthand(c, arg, types)
    } else if n > 0 && chars[0] == '+' {
        assert(arg@.subrange(1, n as int) =~= arg@.skip(1));
        let _ = c.include_tags.insert(slice_of(arg, 1, n));
        Ok(c)
    } else if n > 0 && chars[0] == '-' {
        assert(arg@.subrange(1, n as int) =~= arg@.skip(1));
        let _ = c.exclude_tags.insert(slice_of(arg, 1, n));
        Ok(c)
    } else if n > 0 && chars[n - 1] == '+' {
        take_bound(c, Bound::Above, arg, chars)
    } else if n > 0 && chars[n - 1] == '-' {
        take_bound(c, Bound::Below, arg, chars)
    } else {
        match Number::parse(arg) {
            Some(number) => put_val(c, number),
            None => {
                let ghost before = c.annotation.deep_view();
                c.annotation.push(String::from_str(arg));
                assert(c.annotation.deep_view() =~= before.push(arg@));
                Ok(c)
            },
        }
    }
}

impl Command {
    /// The command before any token: nothing set, a limit of 10 rows.
    pub fn new() -> (r: Command)
        ensures
            r@ == CommandView::fresh(None),
    {
        let annotation: Vec<String> = Vec::new();
        assert(annotation.deep_view() =~= Seq::<Seq<char>>::empty());
        Command {
            funk: Field::new(),
            object: Field::new(),
            category: Field::new(),
            annotation,
            date: Date::new(),
            lt: Date::new(),
            gt: Date::new(),
            id: Field::new(),
            real_id: Field::new(),
            bike_id: Field::new(),
            val: Field::new(),
            val_lt: Field::new(),
            val_gt: Field::new(),
            lim: 10,
            include_tags: TagSet::new(),
            exclude_tags: TagSet::new(),
        }
    }

    /// Takes one more token into the command.
    pub fn take(self, arg: &str, types: &Vec<String>, today: &CalendarDate) -> (r: Result<
        Command,
        ParseError,
    >)
        ensures
            agrees(r, step(self@, arg@, types.deep_view(), today@)),
    {
        if verb(arg) {
            put_verb(self, arg)
        } else if same_text(arg, "ls") {
            put_verb(self, "list")
        } else if entity(arg) {
            put_object(self, String::from_str(arg))
        } else {
            let chars: Vec<char> = chars_of(arg);
            if has_char(&chars, ':') {
                named_parse(self, String::from_str(arg), types, today)
            } else {
                take_plain(self, arg, &chars, types, today)
            }
        }
    }

    /// The command that the arguments `args` ask for on the day `today`, with
    /// `types` as the category codes that are known.
    pub fn classify(args: &Vec<String>, types: &Vec<String>, today: &CalendarDate) -> (r: Result<
        Command,
        ParseError,
    >)
        ensures
            agrees(r, classified(args.deep_view(), types.deep_view(), today@)),
    {
        let n: usize = args.len();
        if n == 0 {
            return Err(ParseError::NothingToDo);
        }
        let ghost all = args.deep_view();
        assert(all[0] == args@[0]@);
        let id: Option<u32> = parse_u32(args[0].as_str());
        let mut i: usize = if id.is_some() {
            1
        } else {
            0
        };
        assert(all.skip(0) =~= all);
        if i == n {
            return Err(ParseError::NothingToDo);
        }
        let mut command: Command = Command::new();
        command.id.set(id);
        let ghost whole = fold(CommandView::fresh(id), all.skip(i as int), types.deep_view(), today@);
        while i < n
            invariant
                n == args.len(),
                all == args.deep_view(),
                i <= n,
                whole == fold(command@, all.skip(i as int), types.deep_view(), today@),
                whole is Err ==> classified(all, types.deep_view(), today@) == whole,
            decreases n - i,
        {
            assert(all.skip(i as int)[0] == args@[i as int]@);
            assert(all.skip(i as int).skip(1) =~= all.skip(i + 1));
            match command.take(args[i].as_str(), types, today) {
                Ok(next) => {
                    command = next;
                },
                Err(e) => {
                    return Err(e);
                },
            }
            i = i + 1;
        }
        if command.date.is_valid_date(today) {
            Ok(command)
        } else {
            Err(ParseError::InvalidDate)
        }
    }

    /// The command that the arguments `args` ask for today, by the local
    /// clock, with `types` as the category codes that are known.
    pub fn from(args: Vec<String>, types: &Vec<String>) -> (r: Result<Command, ParseError>)
        ensures
            exists|today: Ymd|
                today.is_date() && agrees(
                    r,
                    #[trigger] classified(args.deep_view(), types.deep_view(), today),
                ),
    {
        let today: CalendarDate = CalendarDate::today();
        Command::classify(&args, types, &today)
    }
}

} // verus!
