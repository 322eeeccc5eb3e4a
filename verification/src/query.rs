//! From a command to a query: the filters that the command asks for, each
//! with the value that is bound to it, and the statement that holds them.
//!
//! No value of a command is ever written into the text of a statement but
//! the limit, which is a number below 256: a filter is rendered as a column,
//! an operator and the position of its value. The words of an annotation are
//! searched for as they are: no character of them is a wildcard, and the
//! case of their letters counts.

use crate::calendar::{CalendarDate, Ymd};
use crate::command::{Command, CommandView};
use crate::date::{bound_date, get_date};
use crate::error::{ParseError, ParseErrorView};
use crate::number::Number;
use crate::text::{decimal_string, decimal_text, join, join_texts};
use vstd::prelude::*;
use vstd::string::*;

verus! {

/// The kinds of entity that can be queried.
#[derive(Clone, Copy, Debug, PartialEq, Eq, Structural)]
pub enum Entity {
    Bike,
    Buy,
    Ride,
    Lub,
    Category,
}

/// How a column is held against a value.
#[derive(Clone, Copy, Debug, PartialEq, Eq, Structural)]
pub enum Op {
    Equal,
    AtLeast,
    Greater,
    Less,
    /// The column holds the value somewhere in it, letter for letter.
    Contains,
}

/// A value that is bound to a statement.
#[derive(Debug)]
pub enum Param {
    /// A key of the store.
    Id(u32),
    /// The number of a bike within its category.
    Ordinal(u8),
    /// A price or a distance.
    Real(Number),
    /// A day.
    Day(CalendarDate),
    /// A text.
    Text(String),
}

/// A `Param` with its texts as sequences of characters.
pub enum ParamView {
    Id(u32),
    Ordinal(u8),
    Real(Seq<char>),
    Day(Ymd),
    Text(Seq<char>),
}

impl View for Param {
    type V = ParamView;

    open spec fn view(&self) -> ParamView {
        match *self {
            Param::Id(n) => ParamView::Id(n),
            Param::Ordinal(n) => ParamView::Ordinal(n),
            Param::Real(x) => ParamView::Real(x@),
            Param::Day(d) => ParamView::Day(d@),
            Param::Text(s) => ParamView::Text(s@),
        }
    }
}

impl Param {
    /// The same value once more.
    pub fn copy(&self) -> (r: Param)
        ensures
            r@ == self@,
    {
        match self {
            Param::Id(n) => Param::Id(*n),
            Param::Ordinal(n) => Param::Ordinal(*n),
            Param::Real(x) => Param::Real(x.copy()),
            Param::Day(d) => Param::Day(*d),
            Param::Text(s) => Param::Text(s.clone()),
        }
    }
}

/// One condition of a query: a column, how it is held against a value, and
/// the value.
#[derive(Debug)]
pub struct Filter {
    pub column: &'static str,
    pub op: Op,
    pub param: Param,
}

/// A `Filter` with its texts as sequences of characters.
pub struct FilterView {
    pub column: Seq<char>,
    pub op: Op,
    pub param: ParamView,
}

impl View for Filter {
    type V = FilterView;

    open spec fn view(&self) -> FilterView {
        FilterView { column: self.column@, op: self.op, param: self.param@ }
    }
}

/// The views of `filters`.
pub open spec fn filter_views(filters: Seq<Filter>) -> Seq<FilterView> {
    Seq::new(filters.len(), |i: int| filters[i]@)
}

/// What is selected for the entities of a kind, and from which tables.
pub open spec fn select_of(entity: Entity) -> Seq<char> {
    match entity {
        Entity::Bike =>
            "SELECT ROW_NUMBER() OVER (ORDER BY c.id) AS row_num, b.id, concat(c.abbr, ':', b.id_in_cat) AS code, b.name, b.datestamp FROM bike b JOIN category c ON c.id = b.category_id"@,
        Entity::Buy =>
            "SELECT b.id AS buy_id, b.name, b.price, b.datestamp, COALESCE(GROUP_CONCAT(t.name, ', '), '') AS tags, CASE WHEN c.abbr IS NULL AND bk.id_in_cat IS NULL THEN '' ELSE concat(c.abbr, ':', COALESCE(bk.id_in_cat, '')) END AS bike_or_category FROM buy b LEFT JOIN tag_to_buy tb ON tb.buy_id = b.id LEFT JOIN tag t ON t.id = tb.tag_id LEFT JOIN buy_to_category bc ON bc.buy_id = b.id LEFT JOIN category c ON c.id = bc.category_id LEFT JOIN buy_to_bike bbk ON bbk.buy_id = b.id LEFT JOIN bike bk ON bk.id = bbk.bike_id"@,
        Entity::Ride =>
            "SELECT r.id, r.datestamp, r.distance, concat(c.abbr, ':', b.id_in_cat) AS cat_bike, COALESCE(r.annotation, '') AS ann, COALESCE(GROUP_CONCAT(t.name, ', '), '') AS tags FROM ride r LEFT JOIN tag_to_ride tr ON r.id = tr.ride_id LEFT JOIN tag t ON tr.tag_id = t.id LEFT JOIN bike b ON r.bike_id = b.id LEFT JOIN category c ON b.category_id = c.id"@,
        Entity::Lub =>
            "SELECT ROW_NUMBER() OVER (ORDER BY l.datestamp DESC) AS row_num, l.id AS lub_id, l.datestamp AS date, l.distance AS dist, COALESCE(l.annotation, '') AS ann, concat(c.abbr, ':', b.id_in_cat) AS code FROM chain_lubrication l JOIN bike b ON b.id = l.bike_id JOIN category c ON c.id = b.category_id"@,
        Entity::Category => "SELECT * FROM category"@,
    }
}

/// How the rows of a kind of entity are grouped and ordered: one row for
/// each entity, the latest first; bikes by their category.
pub open spec fn order_of(entity: Entity) -> Seq<char> {
    match entity {
        Entity::Bike => " GROUP BY b.id ORDER BY c.id"@,
        Entity::Buy => " GROUP BY b.id, b.name, b.price, b.datestamp ORDER BY b.datestamp DESC"@,
        Entity::Ride => " GROUP BY r.id ORDER BY r.datestamp DESC"@,
        Entity::Lub => " GROUP BY l.id ORDER BY l.datestamp DESC"@,
        Entity::Category => ""@,
    }
}

/// The column that holds the key of an entity.
pub open spec fn id_column(entity: Entity) -> Seq<char> {
    match entity {
        Entity::Bike => "b.id"@,
        Entity::Buy => "b.id"@,
        Entity::Ride => "r.id"@,
        Entity::Lub => "l.id"@,
        Entity::Category => "id"@,
    }
}

/// The column that holds the value of an entity, where it has one that can
/// be asked for: the price of a purchase, the distance of a ride.
pub open spec fn value_column(entity: Entity) -> Option<Seq<char>> {
    match entity {
        Entity::Bike => None,
        Entity::Buy => Some("b.price"@),
        Entity::Ride => Some("r.distance"@),
        Entity::Lub => None,
        Entity::Category => None,
    }
}

/// The column that holds the day of an entity, where it can be asked for.
pub open spec fn date_column(entity: Entity) -> Option<Seq<char>> {
    match entity {
        Entity::Bike => None,
        Entity::Buy => Some("b.datestamp"@),
        Entity::Ride => Some("r.datestamp"@),
        Entity::Lub => Some("l.datestamp"@),
        Entity::Category => None,
    }
}

/// The column that holds the category code.
pub open spec fn category_column(entity: Entity) -> Seq<char> {
    match entity {
        Entity::Category => "abbr"@,
        _ => "c.abbr"@,
    }
}

/// The column that holds the number of the bike within its category.
pub open spec fn ordinal_column(entity: Entity) -> Seq<char> {
    match entity {
        Entity::Buy => "bk.id_in_cat"@,
        _ => "b.id_in_cat"@,
    }
}

/// The column that holds the text of an entity.
pub open spec fn text_column(entity: Entity) -> Seq<char> {
    match entity {
        Entity::Bike => "b.name"@,
        Entity::Buy => "b.name"@,
        Entity::Ride => "r.annotation"@,
        Entity::Lub => "l.annotation"@,
        Entity::Category => "name"@,
    }
}

/// The filters on the value: equality with the value where it is given,
/// else one filter for each bound that is. The value goes before its bounds:
/// a command may hold all three, and the bounds are then passed over.
pub open spec fn value_filters(c: CommandView, entity: Entity) -> Seq<FilterView> {
    match value_column(entity) {
        None => Seq::empty(),
        Some(column) => match c.val {
            Some(v) => seq![FilterView { column, op: Op::Equal, param: ParamView::Real(v) }],
            None => (match c.val_gt {
                Some(v) => seq![FilterView { column, op: Op::Greater, param: ParamView::Real(v) }],
                None => Seq::empty(),
            }) + (match c.val_lt {
                Some(v) => seq![FilterView { column, op: Op::Less, param: ParamView::Real(v) }],
                None => Seq::empty(),
            }),
        },
    }
}

/// The filter that holds `column` against `day`, where there is a day: none
/// without one, and a refusal where the day is no day of the calendar.
pub open spec fn day_filter(column: Seq<char>, op: Op, day: Option<Ymd>) -> Result<
    Seq<FilterView>,
    ParseErrorView,
> {
    match day {
        None => Ok(Seq::empty()),
        Some(d) => if d.is_date() {
            Ok(seq![FilterView { column, op, param: ParamView::Day(d) }])
        } else {
            Err(ParseErrorView::InvalidDate)
        },
    }
}

/// The filters on the day. With a date, the date is taken with today for
/// every part that it leaves open: that very day is asked for where the day
/// of the month is given, else every day from it on. Without a date: after
/// the one bound and before the other, as far as they are given; a bound
/// that leaves the day or the month open stands for the first day of its
/// month or year.
pub open spec fn date_filters(c: CommandView, entity: Entity, today: Ymd) -> Result<
    Seq<FilterView>,
    ParseErrorView,
> {
    match date_column(entity) {
        None => Ok(Seq::empty()),
        Some(column) => if c.date.some() {
            day_filter(
                column,
                if c.date.day is Some {
                    Op::Equal
                } else {
                    Op::AtLeast
                },
                c.date.start(today),
            )
        } else {
            match day_filter(column, Op::Greater, c.gt.first_day(today)) {
                Err(e) => Err(e),
                Ok(after) => match day_filter(column, Op::Less, c.lt.first_day(today)) {
                    Err(e) => Err(e),
                    Ok(before) => Ok(after + before),
                },
            }
        },
    }
}

/// The filters on the bike: its category and its number within it, each
/// where it is given.
pub open spec fn bike_filters(c: CommandView, entity: Entity) -> Seq<FilterView> {
    code_filters(c, entity) + (match c.bike_id {
        Some(n) => seq![
            FilterView {
                column: ordinal_column(entity),
                op: Op::Equal,
                param: ParamView::Ordinal(n),
            },
        ],
        None => Seq::empty(),
    })
}

/// What the text of an entity is searched for: the words of the annotation
/// with a space between each two.
pub open spec fn phrase(words: Seq<Seq<char>>) -> Seq<char> {
    join(words, " "@)
}

/// The filter on the text, where the command has an annotation: the text
/// has to hold the words of the annotation, as they were given and in their
/// case, somewhere in it.
pub open spec fn text_filters(c: CommandView, entity: Entity) -> Seq<FilterView> {
    if c.annotation.len() > 0 {
        seq![
            FilterView {
                column: text_column(entity),
                op: Op::Contains,
                param: ParamView::Text(phrase(c.annotation)),
            },
        ]
    } else {
        Seq::empty()
    }
}

/// The filter on the category code, where the command has one.
pub open spec fn code_filters(c: CommandView, entity: Entity) -> Seq<FilterView> {
    match c.category {
        Some(code) => seq![
            FilterView {
                column: category_column(entity),
                op: Op::Equal,
                param: ParamView::Text(code),
            },
        ],
        None => Seq::empty(),
    }
}

/// The filters on categories: the key, which is the key of the store where
/// the command has one and the position otherwise, the code and the name,
/// each where it is given.
pub open spec fn category_filters(c: CommandView) -> Seq<FilterView> {
    (match c.real_id {
        Some(n) => seq![
            FilterView {
                column: id_column(Entity::Category),
                op: Op::Equal,
                param: ParamView::Id(n),
            },
        ],
        None => match c.id {
            Some(n) => seq![
                FilterView {
                    column: id_column(Entity::Category),
                    op: Op::Equal,
                    param: ParamView::Id(n),
                },
            ],
            None => Seq::empty(),
        },
    }) + code_filters(c, Entity::Category) + text_filters(c, Entity::Category)
}

/// The filters that a command asks for, in the order in which their values
/// are bound. A key of the store stands alone: it names one entity, and
/// nothing else is asked. Without one the filters are those on the value, on
/// the day, on the bike and on the text. Categories have filters of their
/// own.
pub open spec fn filters_of(c: CommandView, entity: Entity, today: Ymd) -> Result<
    Seq<FilterView>,
    ParseErrorView,
> {
    if entity == Entity::Category {
        Ok(category_filters(c))
    } else {
        match c.real_id {
            Some(n) => Ok(
                seq![
                    FilterView { column: id_column(entity), op: Op::Equal, param: ParamView::Id(n) },
                ],
            ),
            None => match date_filters(c, entity, today) {
                Err(e) => Err(e),
                Ok(days) => Ok(
                    value_filters(c, entity) + days + bike_filters(c, entity) + text_filters(
                        c,
                        entity,
                    ),
                ),
            },
        }
    }
}

/// The most rows that are asked for: the limit of the command; none for
/// categories.
pub open spec fn limit_of(c: CommandView, entity: Entity) -> u8 {
    if entity == Entity::Category {
        0
    } else {
        c.lim
    }
}

/// The sign of an operator that compares, and the name of the function that
/// searches.
pub open spec fn op_text(op: Op) -> Seq<char> {
    match op {
        Op::Equal => "="@,
        Op::AtLeast => ">="@,
        Op::Greater => ">"@,
        Op::Less => "<"@,
        Op::Contains => "instr"@,
    }
}

/// A filter as a condition, with the position of its value among the values
/// that are bound, counted from 1. A comparison is the column, the sign and
/// the position. A search is the place at which the value stands in the
/// column, which is 0 where it stands nowhere: the value is taken as it is,
/// no character of it stands for any other, and the case of its letters
/// counts.
pub open spec fn condition(filter: FilterView, position: nat) -> Seq<char> {
    if filter.op == Op::Contains {
        op_text(filter.op) + "("@ + filter.column + ", ?"@ + decimal_text(position) + ") > 0"@
    } else {
        filter.column + " "@ + op_text(filter.op) + " ?"@ + decimal_text(position)
    }
}

/// The conditions of `filters`, each with its position.
pub open spec fn conditions(filters: Seq<FilterView>) -> Seq<Seq<char>> {
    Seq::new(filters.len(), |i: int| condition(filters[i], (i + 1) as nat))
}

/// The conditions joined by `AND`, after `WHERE`; nothing without a filter.
pub open spec fn where_clause(filters: Seq<FilterView>) -> Seq<char> {
    if filters.len() == 0 {
        Seq::empty()
    } else {
        " WHERE "@ + join(conditions(filters), " AND "@)
    }
}

/// The limit of rows; nothing for the limit 0, which is none.
pub open spec fn limit_clause(lim: u8) -> Seq<char> {
    if lim > 0 {
        " LIMIT "@ + decimal_text(lim as nat)
    } else {
        Seq::empty()
    }
}

/// The whole statement.
pub open spec fn statement(entity: Entity, filters: Seq<FilterView>, lim: u8) -> Seq<char> {
    select_of(entity) + where_clause(filters) + order_of(entity) + limit_clause(lim)
}

/// A query: which entities, under which conditions, and how many at most.
#[derive(Debug)]
pub struct Query {
    pub entity: Entity,
    pub filters: Vec<Filter>,
    pub lim: u8,
}

/// A `Query` with its texts as sequences of characters.
pub struct QueryView {
    pub entity: Entity,
    pub filters: Seq<FilterView>,
    pub lim: u8,
}

impl View for Query {
    type V = QueryView;

    open spec fn view(&self) -> QueryView {
        QueryView { entity: self.entity, filters: filter_views(self.filters@), lim: self.lim }
    }
}

/// What is selected for the entities of a kind, and from which tables.
fn select_text(entity: Entity) -> (r: &'static str)
    ensures
        r@ == select_of(entity),
{
    match entity {
        Entity::Bike =>
            "SELECT ROW_NUMBER() OVER (ORDER BY c.id) AS row_num, b.id, concat(c.abbr, ':', b.id_in_cat) AS code, b.name, b.datestamp FROM bike b JOIN category c ON c.id = b.category_id",
        Entity::Buy =>
            "SELECT b.id AS buy_id, b.name, b.price, b.datestamp, COALESCE(GROUP_CONCAT(t.name, ', '), '') AS tags, CASE WHEN c.abbr IS NULL AND bk.id_in_cat IS NULL THEN '' ELSE concat(c.abbr, ':', COALESCE(bk.id_in_cat, '')) END AS bike_or_category FROM buy b LEFT JOIN tag_to_buy tb ON tb.buy_id = b.id LEFT JOIN tag t ON t.id = tb.tag_id LEFT JOIN buy_to_category bc ON bc.buy_id = b.id LEFT JOIN category c ON c.id = bc.category_id LEFT JOIN buy_to_bike bbk ON bbk.buy_id = b.id LEFT JOIN bike bk ON bk.id = bbk.bike_id",
        Entity::Ride =>
            "SELECT r.id, r.datestamp, r.distance, concat(c.abbr, ':', b.id_in_cat) AS cat_bike, COALESCE(r.annotation, '') AS ann, COALESCE(GROUP_CONCAT(t.name, ', '), '') AS tags FROM ride r LEFT JOIN tag_to_ride tr ON r.id = tr.ride_id LEFT JOIN tag t ON tr.tag_id = t.id LEFT JOIN bike b ON r.bike_id = b.id LEFT JOIN category c ON b.category_id = c.id",
        Entity::Lub =>
            "SELECT ROW_NUMBER() OVER (ORDER BY l.datestamp DESC) AS row_num, l.id AS lub_id, l.datestamp AS date, l.distance AS dist, COALESCE(l.annotation, '') AS ann, concat(c.abbr, ':', b.id_in_cat) AS code FROM chain_lubrication l JOIN bike b ON b.id = l.bike_id JOIN category c ON c.id = b.category_id",
        Entity::Category => "SELECT * FROM category",
    }
}

/// How the rows of a kind of entity are grouped and ordered.
fn order_text(entity: Entity) -> (r: &'static str)
    ensures
        r@ == order_of(entity),
{
    match entity {
        Entity::Bike => " GROUP BY b.id ORDER BY c.id",
        Entity::Buy => " GROUP BY b.id, b.name, b.price, b.datestamp ORDER BY b.datestamp DESC",
        Entity::Ride => " GROUP BY r.id ORDER BY r.datestamp DESC",
        Entity::Lub => " GROUP BY l.id ORDER BY l.datestamp DESC",
        Entity::Category => "",
    }
}

/// The column that holds the key of an entity.
fn id_column_text(entity: Entity) -> (r: &'static str)
    ensures
        r@ == id_column(entity),
{
    match entity {
        Entity::Bike => "b.id",
        Entity::Buy => "b.id",
        Entity::Ride => "r.id",
        Entity::Lub => "l.id",
        Entity::Category => "id",
    }
}

/// The column that holds the value of an entity, where it has one.
fn value_column_text(entity: Entity) -> (r: Option<&'static str>)
    ensures
        r is Some <==> value_column(entity) is Some,
        r matches Some(s) ==> Some(s@) == value_column(entity),
{
    match entity {
        Entity::Bike => None,
        Entity::Buy => Some("b.price"),
        Entity::Ride => Some("r.distance"),
        Entity::Lub => None,
        Entity::Category => None,
    }
}

/// The column that holds the day of an entity, where it can be asked for.
fn date_column_text(entity: Entity) -> (r: Option<&'static str>)
    ensures
        r is Some <==> date_column(entity) is Some,
        r matches Some(s) ==> Some(s@) == date_column(entity),
{
    match entity {
        Entity::Bike => None,
        Entity::Buy => Some("b.datestamp"),
        Entity::Ride => Some("r.datestamp"),
        Entity::Lub => Some("l.datestamp"),
        Entity::Category => None,
    }
}

/// The column that holds the number of the bike within its category.
fn ordinal_column_text(entity: Entity) -> (r: &'static str)
    ensures
        r@ == ordinal_column(entity),
{
    match entity {
        Entity::Buy => "bk.id_in_cat",
        _ => "b.id_in_cat",
    }
}

/// The column that holds the text of an entity.
fn text_column_text(entity: Entity) -> (r: &'static str)
    ensures
        r@ == text_column(entity),
{
    match entity {
        Entity::Bike => "b.name",
        Entity::Buy => "b.name",
        Entity::Ride => "r.annotation",
        Entity::Lub => "l.annotation",
        Entity::Category => "name",
    }
}

/// The sign of an operator that compares, and the name of the function that
/// searches.
fn op_sign(op: Op) -> (r: &'static str)
    ensures
        r@ == op_text(op),
{
    match op {
        Op::Equal => "=",
        Op::AtLeast => ">=",
        Op::Greater => ">",
        Op::Less => "<",
        Op::Contains => "instr",
    }
}

/// Adds one filter at the end.
fn push_filter(filters: &mut Vec<Filter>, column: &'static str, op: Op, param: Param)
    ensures
        filter_views(final(filters)@) == filter_views(old(filters)@).push(
            FilterView { column: column@, op, param: param@ },
        ),
{
    let ghost before = filter_views(filters@);
    filters.push(Filter { column, op, param });
    assert(filter_views(filters@) =~= before.push(
        FilterView { column: column@, op, param: param@ },
    ));
}

/// Adds the filters on the value.
fn push_value_filters(filters: &mut Vec<Filter>, command: &Command, entity: Entity)
    ensures
        filter_views(final(filters)@) == filter_views(old(filters)@) + value_filters(
            command@,
            entity,
        ),
{
    let ghost before = filter_views(filters@);
    assert(before + Seq::<FilterView>::empty() =~= before);
    match value_column_text(entity) {
        None => {},
        Some(column) => {
            match command.val.as_ref() {
                Some(v) => {
                    push_filter(filters, column, Op::Equal, Param::Real(v.copy()));
                    assert(before.push(
                        FilterView { column: column@, op: Op::Equal, param: ParamView::Real(v@) },
                    ) =~= before + value_filters(command@, entity));
                },
                None => {
                    let ghost above = match command@.val_gt {
                        Some(v) => seq![
                            FilterView {
                                column: column@,
                                op: Op::Greater,
                                param: ParamView::Real(v),
                            },
                        ],
                        None => Seq::empty(),
                    };
                    let ghost below = match command@.val_lt {
                        Some(v) => seq![
                            FilterView { column: column@, op: Op::Less, param: ParamView::Real(v) },
                        ],
                        None => Seq::empty(),
                    };
                    match command.val_gt.as_ref() {
                        Some(v) => {
                            push_filter(filters, column, Op::Greater, Param::Real(v.copy()));
                        },
                        None => {},
                    }
                    assert(filter_views(filters@) =~= before + above);
                    match command.val_lt.as_ref() {
                        Some(v) => {
                            push_filter(filters, column, Op::Less, Param::Real(v.copy()));
                        },
                        None => {},
                    }
                    assert(filter_views(filters@) =~= before + (above + below));
                },
            }
        },
    }
}

/// Adds the filter that holds `column` against the day that was found, where
/// one was found.
fn push_day_filter(
    filters: &mut Vec<Filter>,
    column: &'static str,
    op: Op,
    found: Result<Option<CalendarDate>, ParseError>,
) -> (r: Result<(), ParseError>)
    ensures
        match found {
            Ok(Some(day)) => r is Ok && filter_views(final(filters)@) == filter_views(
                old(filters)@,
            ) + seq![FilterView { column: column@, op, param: ParamView::Day(day@) }],
            Ok(None) => r is Ok && final(filters)@ == old(filters)@,
            Err(e) => r matches Err(x) && x@ == e@ && final(filters)@ == old(filters)@,
        },
{
    let ghost before = filter_views(filters@);
    match found {
        Err(e) => Err(e),
        Ok(None) => Ok(()),
        Ok(Some(day)) => {
            push_filter(filters, column, op, Param::Day(day));
            assert(before.push(FilterView { column: column@, op, param: ParamView::Day(day@) })
                =~= before + seq![FilterView { column: column@, op, param: ParamView::Day(day@) }]);
            Ok(())
        },
    }
}

/// Adds the filters on the day.
fn push_date_filters(
    filters: &mut Vec<Filter>,
    command: &Command,
    entity: Entity,
    today: &CalendarDate,
) -> (r: Result<(), ParseError>)
    ensures
        match date_filters(command@, entity, today@) {
            Ok(added) => r is Ok && filter_views(final(filters)@) == filter_views(old(filters)@)
                + added,
            Err(e) => r matches Err(x) && x@ == e,
        },
{
    let ghost before = filter_views(filters@);
    assert(before + Seq::<FilterView>::empty() =~= before);
    match date_column_text(entity) {
        None => Ok(()),
        Some(column) => {
            if command.date.is_some() {
                let op: Op = if command.date.day.is_some() {
                    Op::Equal
                } else {
                    Op::AtLeast
                };
                push_day_filter(filters, column, op, get_date(&command.date, today))
            } else {
                let ghost after = day_filter(column@, Op::Greater, command.gt.first_day(today@));
                let ghost until = day_filter(column@, Op::Less, command.lt.first_day(today@));
                match push_day_filter(filters, column, Op::Greater, bound_date(&command.gt, today)) {
                    Err(e) => Err(e),
                    Ok(()) => {
                        assert(filter_views(filters@) =~= before + after->Ok_0);
                        let ghost so_far = filter_views(filters@);
                        assert(so_far + Seq::<FilterView>::empty() =~= so_far);
                        match push_day_filter(
                            filters,
                            column,
                            Op::Less,
                            bound_date(&command.lt, today),
                        ) {
                            Err(e) => Err(e),
                            Ok(()) => {
                                assert(filter_views(filters@) =~= before + (after->Ok_0
                                    + until->Ok_0));
                                Ok(())
                            },
                        }
                    },
                }
            }
        },
    }
}

/// The column that holds the category code.
fn category_column_text(entity: Entity) -> (r: &'static str)
    ensures
        r@ == category_column(entity),
{
    match entity {
        Entity::Category => "abbr",
        _ => "c.abbr",
    }
}

/// Adds the filter on the category code.
fn push_code_filters(filters: &mut Vec<Filter>, command: &Command, entity: Entity)
    ensures
        filter_views(final(filters)@) == filter_views(old(filters)@) + code_filters(
            command@,
            entity,
        ),
{
    let ghost before = filter_views(filters@);
    assert(before + Seq::<FilterView>::empty() =~= before);
    match command.category.as_ref() {
        Some(code) => {
            push_filter(filters, category_column_text(entity), Op::Equal, Param::Text(code.clone()));
            assert(filter_views(filters@) =~= before + code_filters(command@, entity));
        },
        None => {},
    }
}

/// Adds the filters on the bike.
fn push_bike_filters(filters: &mut Vec<Filter>, command: &Command, entity: Entity)
    ensures
        filter_views(final(filters)@) == filter_views(old(filters)@) + bike_filters(
            command@,
            entity,
        ),
{
    let ghost before = filter_views(filters@);
    let ghost of_ordinal = match command@.bike_id {
        Some(n) => seq![
            FilterView {
                column: ordinal_column(entity),
                op: Op::Equal,
                param: ParamView::Ordinal(n),
            },
        ],
        None => Seq::empty(),
    };
    push_code_filters(filters, command, entity);
    let ghost coded = filter_views(filters@);
    assert(coded + Seq::<FilterView>::empty() =~= coded);
    match command.bike_id.as_ref() {
        Some(n) => {
            push_filter(filters, ordinal_column_text(entity), Op::Equal, Param::Ordinal(*n));
        },
        None => {},
    }
    assert(filter_views(filters@) =~= before + (code_filters(command@, entity) + of_ordinal));
}

/// Adds the filters on a category.
fn push_category_filters(filters: &mut Vec<Filter>, command: &Command)
    ensures
        filter_views(final(filters)@) == filter_views(old(filters)@) + category_filters(command@),
{
    let ghost before = filter_views(filters@);
    let ghost of_id = match command@.real_id {
        Some(n) => seq![
            FilterView {
                column: id_column(Entity::Category),
                op: Op::Equal,
                param: ParamView::Id(n),
            },
        ],
        None => match command@.id {
            Some(n) => seq![
                FilterView {
                    column: id_column(Entity::Category),
                    op: Op::Equal,
                    param: ParamView::Id(n),
                },
            ],
            None => Seq::empty(),
        },
    };
    assert(before + Seq::<FilterView>::empty() =~= before);
    match command.real_id.as_ref() {
        Some(n) => {
            push_filter(filters, id_column_text(Entity::Category), Op::Equal, Param::Id(*n));
        },
        None => match command.id.as_ref() {
            Some(n) => {
                push_filter(filters, id_column_text(Entity::Category), Op::Equal, Param::Id(*n));
            },
            None => {},
        },
    }
    assert(filter_views(filters@) =~= before + of_id);
    push_code_filters(filters, command, Entity::Category);
    push_text_filters(filters, command, Entity::Category);
    assert(filter_views(filters@) =~= before + (of_id + code_filters(command@, Entity::Category)
        + text_filters(command@, Entity::Category)));
}

/// Adds the filter on the text.
fn push_text_filters(filters: &mut Vec<Filter>, command: &Command, entity: Entity)
    ensures
        filter_views(final(filters)@) == filter_views(old(filters)@) + text_filters(
            command@,
            entity,
        ),
{
    let ghost before = filter_views(filters@);
    assert(before + Seq::<FilterView>::empty() =~= before);
    if command.annotation.len() > 0 {
        let words: String = join_texts(&command.annotation, " ");
        push_filter(filters, text_column_text(entity), Op::Contains, Param::Text(words));
        assert(before.push(
            FilterView {
                column: text_column(entity),
                op: Op::Contains,
                param: ParamView::Text(phrase(command@.annotation)),
            },
        ) =~= before + text_filters(command@, entity));
    }
}

/// The query that `command` asks for over the entities of the kind
/// `entity`, on the day `today`. It is refused where a date of the command
/// that a filter needs is no day of the calendar.
pub fn compile(command: &Command, entity: Entity, today: &CalendarDate) -> (r: Result<
    Query,
    ParseError,
>)
    ensures
        match filters_of(command@, entity, today@) {
            Ok(filters) => r matches Ok(q) && q@ == (QueryView {
                entity,
                filters,
                lim: limit_of(command@, entity),
            }),
            Err(e) => r matches Err(x) && x@ == e,
        },
{
    let mut filters: Vec<Filter> = Vec::new();
    assert(filter_views(filters@) =~= Seq::<FilterView>::empty());
    let category: bool = match entity {
        Entity::Category => true,
        _ => false,
    };
    if category {
        push_category_filters(&mut filters, command);
        assert(filter_views(filters@) =~= category_filters(command@));
        return Ok(Query { entity, filters, lim: 0 });
    }
    match command.real_id.as_ref() {
        Some(n) => {
            push_filter(&mut filters, id_column_text(entity), Op::Equal, Param::Id(*n));
            assert(Seq::<FilterView>::empty().push(
                FilterView { column: id_column(entity), op: Op::Equal, param: ParamView::Id(*n) },
            ) =~= seq![
                FilterView { column: id_column(entity), op: Op::Equal, param: ParamView::Id(*n) },
            ]);
        },
        None => {
            push_value_filters(&mut filters, command, entity);
            match push_date_filters(&mut filters, command, entity, today) {
                Err(e) => {
                    return Err(e);
                },
                Ok(()) => {},
            }
            push_bike_filters(&mut filters, command, entity);
            push_text_filters(&mut filters, command, entity);
            assert(filter_views(filters@) =~= value_filters(command@, entity) + date_filters(
                command@,
                entity,
                today@,
            )->Ok_0 + bike_filters(command@, entity) + text_filters(command@, entity));
        },
    }
    Ok(Query { entity, filters, lim: command.lim })
}

impl Query {
    /// The condition of the filter at index `i`.
    fn condition_at(&self, i: usize) -> (r: String)
        requires
            i < self.filters.len(),
        ensures
            r@ == conditions(self@.filters)[i as int],
    {
        let filter: &Filter = &self.filters[i];
        let searched: bool = match filter.op {
            Op::Contains => true,
            _ => false,
        };
        if searched {
            let mut r: String = String::from_str(op_sign(filter.op));
            r.append("(");
            r.append(filter.column);
            r.append(", ?");
            r.append(decimal_string((i + 1) as u64).as_str());
            r.append(") > 0");
            r
        } else {
            let mut r: String = String::from_str(filter.column);
            r.append(" ");
            r.append(op_sign(filter.op));
            r.append(" ?");
            r.append(decimal_string((i + 1) as u64).as_str());
            r
        }
    }

    /// The statement, with a position for every value.
    pub fn sql(&self) -> (r: String)
        ensures
            r@ == statement(self@.entity, self@.filters, self@.lim),
    {
        let n: usize = self.filters.len();
        let mut parts: Vec<String> = Vec::new();
        let mut i: usize = 0;
        while i < n
            invariant
                n == self.filters.len(),
                i <= n,
                parts.len() == i,
                forall|j: int| 0 <= j < i ==> parts@[j]@ == conditions(self@.filters)[j],
            decreases n - i,
        {
            parts.push(self.condition_at(i));
            i = i + 1;
        }
        assert(parts.deep_view() =~= conditions(self@.filters));
        let mut r: String = String::from_str(select_text(self.entity));
        if n > 0 {
            r.append(" WHERE ");
            r.append(join_texts(&parts, " AND ").as_str());
        }
        r.append(order_text(self.entity));
        if self.lim > 0 {
            r.append(" LIMIT ");
            r.append(decimal_string(self.lim as u64).as_str());
        }
        proof {
            let w = where_clause(self@.filters);
            let l = limit_clause(self@.lim);
            assert(r@ =~= select_of(self.entity) + w + order_of(self.entity) + l);
        }
        r
    }

    /// The values to bind, in the order of their positions.
    pub fn params(&self) -> (r: Vec<Param>)
        ensures
            r.len() == self@.filters.len(),
            forall|i: int| 0 <= i < r.len() ==> (#[trigger] r@[i])@ == self@.filters[i].param,
    {
        let n: usize = self.filters.len();
        let mut r: Vec<Param> = Vec::new();
        let mut i: usize = 0;
        while i < n
            invariant
                n == self.filters.len(),
                i <= n,
                r.len() == i,
                forall|j: int| 0 <= j < i ==> (#[trigger] r@[j])@ == self.filters@[j].param@,
            decreases n - i,
        {
            r.push(self.filters[i].param.copy());
            i = i + 1;
        }
        r
    }
}

} // verus!
