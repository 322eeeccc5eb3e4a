//! What holds of classification and filtering as a whole.

use crate::calendar::Ymd;
use crate::command::{classified, fold, is_entity, is_verb, step, CommandView};
use crate::date::Date;
use crate::error::{Bound, ParseErrorView, Slot};
use crate::filter::{any, common, kept, lemma_kept, numbered, stays};
use crate::models::Row;
use crate::parser::{id_named, keyed, limit_named, named};
use crate::query::{
    date_column, date_filters, filters_of, id_column, Entity, FilterView, Op, ParamView,
};
use crate::tags::with_tag;
use crate::text::{
    count_char, is_float_literal, lemma_split_pair, lemma_split_without, split, trim_end, u32_of,
    u8_of,
};
use vstd::prelude::*;

verus! {

/// Whether a part that is written once was left alone if it was there.
pub open spec fn kept_if_set<T>(before: Option<T>, after: Option<T>) -> bool {
    before is Some ==> after == before
}

/// Whether no part of a date that was there has changed.
pub open spec fn date_kept(before: Date, after: Date) -> bool {
    &&& kept_if_set(before.year, after.year)
    &&& kept_if_set(before.month, after.month)
    &&& kept_if_set(before.day, after.day)
}

/// Whether `after` holds every part of `before` that is written once and
/// was there, the position in the last list as it was, and the annotation
/// and the tags of `before` and perhaps more.
pub open spec fn extends(before: CommandView, after: CommandView) -> bool {
    &&& kept_if_set(before.funk, after.funk)
    &&& kept_if_set(before.object, after.object)
    &&& kept_if_set(before.category, after.category)
    &&& kept_if_set(before.bike_id, after.bike_id)
    &&& kept_if_set(before.real_id, after.real_id)
    &&& kept_if_set(before.val, after.val)
    &&& kept_if_set(before.val_lt, after.val_lt)
    &&& kept_if_set(before.val_gt, after.val_gt)
    &&& date_kept(before.date, after.date)
    &&& date_kept(before.lt, after.lt)
    &&& date_kept(before.gt, after.gt)
    &&& after.id == before.id
    &&& before.annotation.is_prefix_of(after.annotation)
    &&& forall|name: Seq<char>|
        before.include_tags.contains(name) ==> after.include_tags.contains(name)
    &&& forall|name: Seq<char>|
        before.exclude_tags.contains(name) ==> after.exclude_tags.contains(name)
}

/// A set of tags loses no name when one is put into it.
pub proof fn lemma_with_tag_keeps(tags: Seq<Seq<char>>, name: Seq<char>)
    ensures
        forall|other: Seq<char>| tags.contains(other) ==> with_tag(tags, name).contains(other),
        with_tag(tags, name).contains(name),
{
    assert forall|other: Seq<char>| tags.contains(other) implies with_tag(tags, name).contains(
        other,
    ) by {
        let k = choose|k: int| 0 <= k < tags.len() && tags[k] == other;
        assert(tags.push(name)[k] == other);
    }
    if !tags.contains(name) {
        assert(tags.push(name)[tags.len() as int] == name);
    }
}

/// No part of a date that is there is written again.
pub proof fn law_date_written_once(date: Date, val: Seq<char>, today: Ymd)
    ensures
        date.with_year(val, today) matches Ok(d) ==> date_kept(date, d),
        date.with_month(val, today) matches Ok(d) ==> date_kept(date, d),
        date.with_day(val, today) matches Ok(d) ==> date_kept(date, d),
        date.with_date(val, today) matches Ok(d) ==> date_kept(date, d),
{
}

/// A token with a colon never overwrites a part that is written once: it
/// fills an empty part, or it is refused. Only the limit is written anew.
pub proof fn law_named_writes_once(
    c: CommandView,
    t: Seq<char>,
    types: Seq<Seq<char>>,
    today: Ymd,
)
    ensures
        named(c, t, types, today) matches Ok(d) ==> extends(c, d),
{
    let parts = split(t, ":"@);
    if parts.len() == 2 {
        law_date_written_once(c.date, parts[1], today);
        law_date_written_once(c.lt, parts[1], today);
        law_date_written_once(c.gt, parts[1], today);
    }
}

/// No token overwrites a part that is written once, whatever its shape: the
/// verb, the kind of entity, the category, the number of the bike, the key
/// in the store, the value and its bounds, and each part of each date are
/// filled once or the token is refused.
pub proof fn law_written_once(c: CommandView, t: Seq<char>, types: Seq<Seq<char>>, today: Ymd)
    ensures
        step(c, t, types, today) matches Ok(d) ==> extends(c, d),
{
    law_named_writes_once(c, t, types, today);
    law_date_written_once(c.date, t, today);
    assert(c.annotation.is_prefix_of(c.annotation));
    assert(c.annotation.is_prefix_of(c.annotation.push(t)));
    lemma_with_tag_keeps(c.include_tags, t.skip(1));
    lemma_with_tag_keeps(c.exclude_tags, t.skip(1));
}

/// A token `key:value` whose key is a category code and whose value is a
/// byte sets the category and the number of the bike in it, both at once,
/// where neither was set.
pub proof fn law_category_token_sets_both(
    c: CommandView,
    t: Seq<char>,
    types: Seq<Seq<char>>,
    today: Ymd,
    key: Seq<char>,
    val: Seq<char>,
)
    requires
        split(t, ":"@) == seq![key, val],
        types.contains(key),
        u8_of(val) is Some,
        c.category is None,
        c.bike_id is None,
    ensures
        named(c, t, types, today) == Ok::<CommandView, ParseErrorView>(
            CommandView { category: Some(key), bike_id: u8_of(val), ..c },
        ),
{
    assert(val.len() > 0);
}

/// After such a token every further one is refused as a conflict.
pub proof fn law_second_category_token_conflicts(
    c: CommandView,
    t: Seq<char>,
    types: Seq<Seq<char>>,
    today: Ymd,
    key: Seq<char>,
    val: Seq<char>,
)
    requires
        split(t, ":"@) == seq![key, val],
        types.contains(key),
        u8_of(val) is Some,
        c.bike_id is Some,
    ensures
        named(c, t, types, today) == Err::<CommandView, ParseErrorView>(
            ParseErrorView::Multiple(Slot::BikeId),
        ),
{
    assert(val.len() > 0);
}

/// The tokens `tokens` are refused where the one at index `j` names a bike
/// and the command has the number of a bike already.
pub proof fn lemma_fold_second_bike(
    c: CommandView,
    tokens: Seq<Seq<char>>,
    types: Seq<Seq<char>>,
    today: Ymd,
    j: int,
    key: Seq<char>,
    val: Seq<char>,
)
    requires
        c.bike_id is Some,
        0 <= j < tokens.len(),
        split(tokens[j], ":"@) == seq![key, val],
        types.contains(key),
        u8_of(val) is Some,
    ensures
        fold(c, tokens, types, today) is Err,
        fold(c, tokens.take(j), types, today) is Ok ==> fold(c, tokens, types, today) == Err::<
            CommandView,
            ParseErrorView,
        >(ParseErrorView::Multiple(Slot::BikeId)),
    decreases tokens.len(),
{
    if j == 0 {
        lemma_pair_is_named(c, tokens[0], types, today);
        law_second_category_token_conflicts(c, tokens[0], types, today, key, val);
    } else {
        law_written_once(c, tokens[0], types, today);
        assert(tokens.take(j)[0] == tokens[0]);
        match step(c, tokens[0], types, today) {
            Ok(next) => {
                let rest = tokens.skip(1);
                assert(rest[j - 1] == tokens[j]);
                lemma_fold_second_bike(next, rest, types, today, j - 1, key, val);
                assert(tokens.take(j).skip(1) =~= rest.take(j - 1));
            },
            Err(e) => {},
        }
    }
}

/// Tokens of which two are `key:value` with a category code as the key and
/// a byte as the value are refused: the first of the two sets the category
/// and the number of the bike, and the second finds them set.
pub proof fn law_two_category_tokens(
    c: CommandView,
    tokens: Seq<Seq<char>>,
    types: Seq<Seq<char>>,
    today: Ymd,
    i: int,
    j: int,
    first: (Seq<char>, Seq<char>),
    second: (Seq<char>, Seq<char>),
)
    requires
        0 <= i < j < tokens.len(),
        split(tokens[i], ":"@) == seq![first.0, first.1],
        types.contains(first.0),
        u8_of(first.1) is Some,
        split(tokens[j], ":"@) == seq![second.0, second.1],
        types.contains(second.0),
        u8_of(second.1) is Some,
    ensures
        fold(c, tokens, types, today) is Err,
    decreases tokens.len(),
{
    let rest = tokens.skip(1);
    assert(rest[j - 1] == tokens[j]);
    match step(c, tokens[0], types, today) {
        Ok(next) => {
            if i == 0 {
                lemma_pair_is_named(c, tokens[0], types, today);
                assert(first.1.len() > 0);
                assert(next.bike_id is Some);
                lemma_fold_second_bike(next, rest, types, today, j - 1, second.0, second.1);
            } else {
                assert(rest[i - 1] == tokens[i]);
                law_two_category_tokens(next, rest, types, today, i - 1, j - 1, first, second);
            }
        },
        Err(e) => {},
    }
}

/// The limit is overwritten by every token `lim:value`, whatever it was:
/// the last one stands. `lim:` without a value lifts the limit.
pub proof fn law_limit_last_write_wins(
    c: CommandView,
    t: Seq<char>,
    types: Seq<Seq<char>>,
    today: Ymd,
    val: Seq<char>,
)
    requires
        split(t, ":"@) == seq!["lim"@, val],
        !types.contains("lim"@),
        val.len() > 0 ==> u8_of(val) is Some,
    ensures
        named(c, t, types, today) == Ok::<CommandView, ParseErrorView>(
            CommandView {
                lim: if val.len() > 0 {
                    u8_of(val)->0
                } else {
                    0
                },
                ..c
            },
        ),
{
    lemma_late_keys(c, val, today);
}

/// The keys `lim` and `id` are none of the keys that are tested before
/// them: a value under `lim` is a limit, and a value under `id` a key of the
/// store.
pub proof fn lemma_late_keys(c: CommandView, val: Seq<char>, today: Ymd)
    ensures
        keyed(c, "lim"@, val, today) == limit_named(c, "lim"@, val),
        keyed(c, "id"@, val, today) == id_named(c, "id"@, val),
{
    reveal_strlit("lim");
    reveal_strlit("id");
    reveal_strlit("year");
    reveal_strlit("month");
    reveal_strlit("day");
    reveal_strlit("date");
    reveal_strlit("lt");
    reveal_strlit("gt");
    reveal_strlit("cat");
    reveal_strlit("bike");
    reveal_strlit("val");
    let lim = "lim"@;
    let id = "id"@;
    assert(lim.len() == 3 && lim[0] == 'l');
    assert(id.len() == 2 && id[0] == 'i');
    assert("day"@[0] == 'd');
    assert("cat"@[0] == 'c');
    assert("val"@[0] == 'v');
    assert("lt"@[0] == 'l' && "lt"@[1] == 't');
    assert("gt"@[0] == 'g');
    assert(lim != "year"@ && lim != "month"@ && lim != "date"@ && lim != "bike"@);
    assert(lim != "lt"@ && lim != "gt"@ && lim != "day"@ && lim != "cat"@ && lim != "val"@);
    assert(id != "year"@ && id != "month"@ && id != "date"@ && id != "bike"@);
    assert(id != "lt"@ && id != "gt"@ && id != "day"@ && id != "cat"@ && id != "val"@);
    assert(id != lim);
}

/// A token that holds a colon is no verb and no kind of entity.
pub proof fn lemma_colon_is_no_keyword(t: Seq<char>)
    requires
        t.contains(':'),
    ensures
        !is_verb(t),
        t != "ls"@,
        !is_entity(t),
{
    reveal_strlit("add");
    reveal_strlit("del");
    reveal_strlit("mod");
    reveal_strlit("edit");
    reveal_strlit("list");
    reveal_strlit("graph");
    reveal_strlit("sync");
    reveal_strlit("ls");
    reveal_strlit("buy");
    reveal_strlit("lub");
    reveal_strlit("ride");
    reveal_strlit("cat");
    reveal_strlit("tag");
    let i = choose|i: int| 0 <= i < t.len() && t[i] == ':';
    assert(t[i] == ':');
}

/// The colon is tested before the hyphens are counted: a token that holds a
/// colon is classified as a `key:value` pair, however many hyphens it holds,
/// and so a date may be the value of a key.
pub proof fn law_colon_goes_first(c: CommandView, t: Seq<char>, types: Seq<Seq<char>>, today: Ymd)
    requires
        t.contains(':'),
    ensures
        step(c, t, types, today) == named(c, t, types, today),
{
    lemma_colon_is_no_keyword(t);
}

/// A token that `:` splits in two holds a colon, and is classified as a
/// `key:value` pair.
pub proof fn lemma_pair_is_named(c: CommandView, t: Seq<char>, types: Seq<Seq<char>>, today: Ymd)
    requires
        split(t, ":"@).len() == 2,
    ensures
        t.contains(':'),
        step(c, t, types, today) == named(c, t, types, today),
{
    reveal_strlit(":");
    assert(":"@ =~= seq![':']);
    if !t.contains(':') {
        lemma_split_without(t, ':');
    }
    lemma_colon_is_no_keyword(t);
}

/// Where the position in the last list is given, a token `id:value` is
/// refused, whatever its value: a command has one of the two, never both.
pub proof fn law_id_token_after_position(
    c: CommandView,
    t: Seq<char>,
    types: Seq<Seq<char>>,
    today: Ymd,
    val: Seq<char>,
)
    requires
        c.id is Some,
        split(t, ":"@) == seq!["id"@, val],
        val.len() > 0,
        !types.contains("id"@),
    ensures
        step(c, t, types, today) == Err::<CommandView, ParseErrorView>(ParseErrorView::BothIds),
{
    lemma_pair_is_named(c, t, types, today);
    lemma_late_keys(c, val, today);
}

/// The tokens `tokens` are refused where the one at index `j` is `id:value`
/// and the command has a position in the last list: either a token before
/// it is refused, or this one is because both are given.
pub proof fn lemma_fold_both_ids(
    c: CommandView,
    tokens: Seq<Seq<char>>,
    types: Seq<Seq<char>>,
    today: Ymd,
    j: int,
    val: Seq<char>,
)
    requires
        c.id is Some,
        0 <= j < tokens.len(),
        split(tokens[j], ":"@) == seq!["id"@, val],
        val.len() > 0,
        !types.contains("id"@),
    ensures
        fold(c, tokens, types, today) is Err,
        fold(c, tokens.take(j), types, today) is Ok ==> fold(c, tokens, types, today) == Err::<
            CommandView,
            ParseErrorView,
        >(ParseErrorView::BothIds),
    decreases tokens.len(),
{
    if j == 0 {
        law_id_token_after_position(c, tokens[0], types, today, val);
    } else {
        law_written_once(c, tokens[0], types, today);
        match step(c, tokens[0], types, today) {
            Ok(next) => {
                let rest = tokens.skip(1);
                assert(rest[j - 1] == tokens[j]);
                lemma_fold_both_ids(next, rest, types, today, j - 1, val);
                assert(tokens.take(j).skip(1) =~= rest.take(j - 1));
                assert(tokens.take(j)[0] == tokens[0]);
            },
            Err(e) => {
                assert(tokens.take(j)[0] == tokens[0]);
            },
        }
    }
}

/// A command line that starts with a number, the position in the last list,
/// and holds a token `id:value` as well is refused, whatever the two numbers
/// are. Where every token before `id:value` is accepted, the refusal is that
/// both were given.
pub proof fn law_both_ids(
    args: Seq<Seq<char>>,
    types: Seq<Seq<char>>,
    today: Ymd,
    j: int,
    val: Seq<char>,
)
    requires
        1 <= j < args.len(),
        u32_of(args[0]) is Some,
        split(args[j], ":"@) == seq!["id"@, val],
        val.len() > 0,
        !types.contains("id"@),
    ensures
        classified(args, types, today) is Err,
        fold(CommandView::fresh(u32_of(args[0])), args.skip(1).take(j - 1), types, today) is Ok
            ==> classified(args, types, today) == Err::<CommandView, ParseErrorView>(
            ParseErrorView::BothIds,
        ),
{
    let tokens = args.skip(1);
    assert(tokens[j - 1] == args[j]);
    lemma_fold_both_ids(CommandView::fresh(u32_of(args[0])), tokens, types, today, j - 1, val);
}

/// Whether `t` is classified by how it ends: it is no verb and no kind of
/// entity, holds no colon and not two hyphens, and starts with none of the
/// marks `_`, `+` and `-`.
pub open spec fn is_plain(t: Seq<char>) -> bool {
    &&& !is_verb(t)
    &&& t != "ls"@
    &&& !is_entity(t)
    &&& !t.contains(':')
    &&& count_char(t, '-') != 2
    &&& t.len() > 0
    &&& t[0] != '_'
    &&& t[0] != '+'
    &&& t[0] != '-'
}

/// A token that ends in `+` without a number before it is refused, and the
/// refusal names the bound and holds the token as it was given.
pub proof fn law_bound_wants_a_number(
    c: CommandView,
    t: Seq<char>,
    types: Seq<Seq<char>>,
    today: Ymd,
)
    requires
        is_plain(t),
        t.last() == '+',
        !is_float_literal(trim_end(t, '+')),
    ensures
        step(c, t, types, today) == Err::<CommandView, ParseErrorView>(
            ParseErrorView::WrongBound { bound: Bound::Above, given: t },
        ),
{
}

/// On the first of a month `prev` names the last day of the month before:
/// a day that this month has, and its last.
pub proof fn law_prev_day_ends_the_month(today: Ymd)
    requires
        today.is_date(),
        today.day == 1,
    ensures
        today.prev_day() == crate::calendar::days_in_month(
            if today.month > 1 {
                today.year
            } else {
                today.year - 1
            },
            today.prev_month(),
        ),
        today.month == 3 ==> today.prev_day() == if crate::calendar::leap_year(today.year) {
            29int
        } else {
            28int
        },
{
}

/// A date of which only the year is given resolves to that year with the
/// month and the day of today; it counts as given, though not in full.
pub proof fn law_year_alone(year: i32, today: Ymd)
    ensures
        ({
            let date = Date { year: Some(year), month: None, day: None };
            &&& date.resolved(today) == (Ymd { year: year as int, month: today.month, day: today.day })
            &&& date.some()
            &&& date.day is None
        }),
{
}

/// An entity with a tag that is refused does not stay, whatever tags it has
/// that are asked for.
pub proof fn law_refused_tag_wins(id: i32, wanted: Seq<Seq<i32>>, unwanted: Seq<Seq<i32>>, i: int)
    requires
        0 <= i < unwanted.len(),
        unwanted[i].contains(id),
    ensures
        !stays(id, common(wanted), any(unwanted)),
{
}

/// An entity that has every tag that is asked for, of which there is one at
/// least, and no tag that is refused, stays.
pub proof fn law_all_wanted_and_none_refused(
    id: i32,
    wanted: Seq<Seq<i32>>,
    unwanted: Seq<Seq<i32>>,
)
    requires
        wanted.len() > 0,
        forall|i: int| 0 <= i < wanted.len() ==> (#[trigger] wanted[i]).contains(id),
        forall|i: int| 0 <= i < unwanted.len() ==> !(#[trigger] unwanted[i]).contains(id),
    ensures
        stays(id, common(wanted), any(unwanted)),
{
}

/// With tags asked for, and an entity that has them all, an entity that
/// lacks one of them does not stay.
pub proof fn law_every_wanted_tag(
    id: i32,
    other: i32,
    wanted: Seq<Seq<i32>>,
    unwanted: Seq<Seq<i32>>,
    i: int,
)
    requires
        0 <= i < wanted.len(),
        !wanted[i].contains(id),
        common(wanted).contains(other),
    ensures
        !stays(id, common(wanted), any(unwanted)),
{
}

/// The rows that stay get the positions 1, 2, 3 and so on in their order,
/// whatever their keys are; each is a row that `stays` admits, and every
/// such row is among them.
pub proof fn law_positions_count_from_one<R: Row>(
    rows: Seq<R>,
    wanted: Set<i32>,
    unwanted: Set<i32>,
)
    ensures
        numbered(rows, wanted, unwanted).len() == kept(rows, wanted, unwanted).len(),
        forall|i: int|
            0 <= i < numbered(rows, wanted, unwanted).len() ==> {
                let k = kept(rows, wanted, unwanted)[i];
                &&& 0 <= k < rows.len()
                &&& stays(rows[k].key(), wanted, unwanted)
                &&& #[trigger] numbered(rows, wanted, unwanted)[i] == rows[k].at((i + 1) as i32)
            },
        forall|k: int|
            0 <= k < rows.len() && stays(#[trigger] rows[k].key(), wanted, unwanted) ==> kept(
                rows,
                wanted,
                unwanted,
            ).contains(k),
{
    lemma_kept(rows, wanted, unwanted);
}

/// In a list that positions of 32 bits can count, the rows that stay are at
/// the positions 1, 2, 3 and so on, one after the other, and each is the row
/// of the entity that it was: the positions follow the order of the rows
/// and owe nothing to the keys.
pub proof fn law_positions_are_one_two_three<R: Row>(
    rows: Seq<R>,
    wanted: Set<i32>,
    unwanted: Set<i32>,
)
    requires
        rows.len() <= i32::MAX,
    ensures
        numbered(rows, wanted, unwanted).len() <= rows.len(),
        forall|i: int|
            0 <= i < numbered(rows, wanted, unwanted).len() ==> {
                let row = #[trigger] numbered(rows, wanted, unwanted)[i];
                &&& row.position() == i + 1
                &&& row.key() == rows[kept(rows, wanted, unwanted)[i]].key()
                &&& stays(row.key(), wanted, unwanted)
            },
{
    lemma_kept(rows, wanted, unwanted);
    assert forall|i: int| 0 <= i < numbered(rows, wanted, unwanted).len() implies {
        let row = #[trigger] numbered(rows, wanted, unwanted)[i];
        &&& row.position() == i + 1
        &&& row.key() == rows[kept(rows, wanted, unwanted)[i]].key()
        &&& stays(row.key(), wanted, unwanted)
    } by {
        let k = kept(rows, wanted, unwanted)[i];
        rows[k].lemma_at((i + 1) as i32);
    }
}

/// A key, a colon and a value are split into the key and the value, as long
/// as neither holds a colon.
pub proof fn law_key_colon_value(key: Seq<char>, val: Seq<char>)
    requires
        !key.contains(':'),
        !val.contains(':'),
    ensures
        split(key + ":"@ + val, ":"@) == seq![key, val],
{
    reveal_strlit(":");
    assert(":"@ =~= seq![':']);
    lemma_split_pair(key, val, ':');
}

/// What holds of every command that classification gives: it names its
/// entity by position or by key, never by both, and where it has the number
/// of a bike it has the category of the bike as well.
pub open spec fn well_formed(c: CommandView) -> bool {
    &&& !(c.id is Some && c.real_id is Some)
    &&& c.bike_id is Some ==> c.category is Some
}

/// A token keeps a command well formed.
pub proof fn law_step_keeps_well_formed(
    c: CommandView,
    t: Seq<char>,
    types: Seq<Seq<char>>,
    today: Ymd,
)
    requires
        well_formed(c),
    ensures
        step(c, t, types, today) matches Ok(d) ==> well_formed(d),
{
    law_written_once(c, t, types, today);
}

/// Tokens keep a command well formed.
pub proof fn law_fold_keeps_well_formed(
    c: CommandView,
    tokens: Seq<Seq<char>>,
    types: Seq<Seq<char>>,
    today: Ymd,
)
    requires
        well_formed(c),
    ensures
        fold(c, tokens, types, today) matches Ok(d) ==> well_formed(d),
    decreases tokens.len(),
{
    if tokens.len() > 0 {
        law_step_keeps_well_formed(c, tokens[0], types, today);
        match step(c, tokens[0], types, today) {
            Ok(next) => {
                law_fold_keeps_well_formed(next, tokens.skip(1), types, today);
            },
            Err(e) => {},
        }
    }
}

/// Every command that classification gives is well formed, and its date,
/// with today for what it leaves open, is a day of the calendar that is not
/// after today.
pub proof fn law_classified_is_well_formed(
    args: Seq<Seq<char>>,
    types: Seq<Seq<char>>,
    today: Ymd,
)
    ensures
        classified(args, types, today) matches Ok(c) ==> well_formed(c) && c.date.valid_on(today),
{
    if args.len() > 0 {
        let id = u32_of(args[0]);
        let tokens = if id is Some {
            args.skip(1)
        } else {
            args
        };
        law_fold_keeps_well_formed(CommandView::fresh(id), tokens, types, today);
    }
}

/// A key of the store stands alone: a command that has one asks for the
/// entity with this key and for nothing else, whatever else it holds.
pub proof fn law_key_stands_alone(c: CommandView, entity: Entity, today: Ymd, key: u32)
    requires
        c.real_id == Some(key),
        entity != Entity::Category,
    ensures
        filters_of(c, entity, today) == Ok::<Seq<FilterView>, ParseErrorView>(
            seq![
                FilterView { column: id_column(entity), op: Op::Equal, param: ParamView::Id(key) },
            ],
        ),
{
}

/// A date that leaves a part open is filled with today: the entities are
/// asked for from the day on that the date makes with the year, the month
/// and the day of today for what it does not give. A date with its day is
/// asked for as that very day.
pub proof fn law_date_is_filled_with_today(c: CommandView, entity: Entity, today: Ymd)
    requires
        c.date.some(),
        date_column(entity) is Some,
        c.date.resolved(today).is_date(),
    ensures
        date_filters(c, entity, today) == Ok::<Seq<FilterView>, ParseErrorView>(
            seq![
                FilterView {
                    column: date_column(entity)->0,
                    op: if c.date.day is Some {
                        Op::Equal
                    } else {
                        Op::AtLeast
                    },
                    param: ParamView::Day(c.date.resolved(today)),
                },
            ],
        ),
{
}

} // verus!
