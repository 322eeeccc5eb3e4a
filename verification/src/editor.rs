//! Records as texts to edit: one line for each field, `key: value`, and what
//! an edited text changes.
//!
//! A record is written out, changed by hand, and read back. Of the text that
//! comes back only the lines with a known key count, and of several lines
//! with one key the last one whose value can be taken.

use crate::calendar::{date_read, iso_text, CalendarDate, Ymd};
use crate::models::{BikeList, BuyList, Category, ChainLubricationList, RideList};
use crate::number::Number;
use crate::text::{
    chars_of, find, find_in, int_string, int_text, is_float_literal, same_text, slice_of, split,
    split_text,
};
use vstd::prelude::*;
use vstd::string::*;

verus! {

/// `s` without a carriage return at its end.
pub open spec fn without_return(s: Seq<char>) -> Seq<char> {
    if s.len() > 0 && s.last() == '\r' {
        s.drop_last()
    } else {
        s
    }
}

/// The lines of a text. A line ends with a line feed, or with a carriage
/// return and a line feed, neither of which belongs to it; what follows the
/// last line feed is a line too unless it is empty.
pub open spec fn lines_of(content: Seq<char>) -> Seq<Seq<char>> {
    let parts = split(content, "\n"@);
    let ended = Seq::new((parts.len() - 1) as nat, |i: int| without_return(parts[i]));
    if parts.len() > 0 && parts.last().len() > 0 {
        ended.push(parts.last())
    } else {
        ended
    }
}

/// The key and the value of a line: what stands before the first `: ` and
/// what stands after it. A line without `: ` is a key without a value.
pub open spec fn entry_of(line: Seq<char>) -> (Seq<char>, Seq<char>) {
    match find(line, ": "@) {
        Some(i) => (line.take(i), line.skip(i + 2)),
        None => (line, Seq::empty()),
    }
}

/// The keys and values of the lines of a text.
pub open spec fn entries_of(content: Seq<char>) -> Seq<(Seq<char>, Seq<char>)> {
    Seq::new(lines_of(content).len(), |i: int| entry_of(lines_of(content)[i]))
}

/// Which values a field takes.
#[derive(Clone, Copy, Debug, PartialEq, Eq, Structural)]
pub enum Accept {
    /// Every text.
    Any,
    /// Every text but the empty one.
    Filled,
    /// The literal of a number.
    Number,
    /// A date as chrono reads it.
    Date,
}

/// Whether a field that takes `kind` takes `value`.
pub open spec fn accepted(kind: Accept, value: Seq<char>) -> bool {
    match kind {
        Accept::Any => true,
        Accept::Filled => value.len() > 0,
        Accept::Number => is_float_literal(value),
        Accept::Date => date_read(value) is Some,
    }
}

/// The value that the entries give the field `key`: that of the last entry
/// with this key whose value the field takes, if there is one.
pub open spec fn last_value(
    entries: Seq<(Seq<char>, Seq<char>)>,
    key: Seq<char>,
    kind: Accept,
) -> Option<Seq<char>>
    decreases entries.len(),
{
    if entries.len() == 0 {
        None
    } else if entries.last().0 == key && accepted(kind, entries.last().1) {
        Some(entries.last().1)
    } else {
        last_value(entries.drop_last(), key, kind)
    }
}

/// The index of the last entry with the key `key` that is marked, if there
/// is one. An entry beyond the marks is not marked.
pub open spec fn last_marked(
    entries: Seq<(Seq<char>, Seq<char>)>,
    key: Seq<char>,
    marks: Seq<bool>,
) -> Option<int>
    decreases entries.len(),
{
    if entries.len() == 0 {
        None
    } else if entries.last().0 == key && entries.len() <= marks.len() && marks[entries.len() - 1] {
        Some(entries.len() - 1)
    } else {
        last_marked(entries.drop_last(), key, marks)
    }
}

/// Where each entry is marked as its value is taken, the value that the
/// entries give a field is that of the last marked entry with its key.
pub proof fn lemma_last_marked(
    entries: Seq<(Seq<char>, Seq<char>)>,
    key: Seq<char>,
    kind: Accept,
    marks: Seq<bool>,
)
    requires
        entries.len() <= marks.len(),
        forall|j: int| 0 <= j < entries.len() ==> marks[j] == accepted(kind, #[trigger] entries[j].1),
    ensures
        last_value(entries, key, kind) == (match last_marked(entries, key, marks) {
            Some(i) => Some(entries[i].1),
            None => None,
        }),
        last_marked(entries, key, marks) matches Some(i) ==> 0 <= i < entries.len(),
    decreases entries.len(),
{
    if entries.len() > 0 {
        let front = entries.drop_last();
        assert forall|j: int| 0 <= j < front.len() implies marks[j] == accepted(
            kind,
            #[trigger] front[j].1,
        ) by {
            assert(front[j] == entries[j]);
        }
        lemma_last_marked(front, key, kind, marks);
        if !(entries.last().0 == key && marks[entries.len() - 1]) {
            match last_marked(front, key, marks) {
                Some(i) => {
                    assert(front[i] == entries[i]);
                },
                None => {},
            }
        }
    }
}

/// A value that the entries give a field is one that the field takes.
pub proof fn lemma_last_value_accepted(
    entries: Seq<(Seq<char>, Seq<char>)>,
    key: Seq<char>,
    kind: Accept,
)
    ensures
        last_value(entries, key, kind) matches Some(value) ==> accepted(kind, value),
    decreases entries.len(),
{
    if entries.len() > 0 && !(entries.last().0 == key && accepted(kind, entries.last().1)) {
        lemma_last_value_accepted(entries.drop_last(), key, kind);
    }
}

/// The text of the field `key` after the edit `content`: what the edit
/// gives it, or `before` where it gives nothing.
pub open spec fn edited(content: Seq<char>, key: Seq<char>, kind: Accept, before: Seq<char>) -> Seq<
    char,
> {
    match last_value(entries_of(content), key, kind) {
        Some(value) => value,
        None => before,
    }
}

/// The date of the field `key` after the edit `content`: the last date that
/// the edit gives it, or `before` where it gives none.
pub open spec fn edited_date(content: Seq<char>, key: Seq<char>, before: Ymd) -> Ymd {
    match last_value(entries_of(content), key, Accept::Date) {
        Some(value) => date_read(value)->0,
        None => before,
    }
}

/// One line of a record: the key, `: `, the value and a line feed.
pub open spec fn line_text(key: Seq<char>, value: Seq<char>) -> Seq<char> {
    key + ": "@ + value + "\n"@
}

/// The views of pairs of texts.
pub open spec fn entry_views(entries: Seq<(String, String)>) -> Seq<(Seq<char>, Seq<char>)> {
    Seq::new(entries.len(), |i: int| (entries[i].0@, entries[i].1@))
}

/// The lines of a text.
pub fn lines(content: &str) -> (r: Vec<String>)
    ensures
        r.deep_view() == lines_of(content@),
{
    proof {
        reveal_strlit("\n");
    }
    let parts: Vec<String> = split_text(content, "\n");
    let ghost pieces = parts.deep_view();
    let n: usize = parts.len();
    let mut r: Vec<String> = Vec::new();
    let mut i: usize = 0;
    while i < n - 1
        invariant
            n == parts.len(),
            n >= 1,
            pieces == parts.deep_view(),
            i <= n - 1,
            r.len() == i,
            forall|j: int| 0 <= j < i ==> r@[j]@ == without_return(pieces[j]),
        decreases n - i,
    {
        assert(pieces[i as int] == parts@[i as int]@);
        let piece: &str = parts[i].as_str();
        let chars: Vec<char> = chars_of(piece);
        let m: usize = chars.len();
        if m > 0 && chars[m - 1] == '\r' {
            assert(piece@.subrange(0, m - 1) =~= piece@.drop_last());
            r.push(slice_of(piece, 0, m - 1));
        } else {
            r.push(parts[i].clone());
        }
        i = i + 1;
    }
    assert(pieces[n - 1] == parts@[n - 1]@);
    let ghost ended = r.deep_view();
    assert(ended =~= Seq::new((pieces.len() - 1) as nat, |i: int| without_return(pieces[i])));
    if parts[n - 1].as_str().unicode_len() > 0 {
        r.push(parts[n - 1].clone());
        assert(r.deep_view() =~= ended.push(pieces.last()));
    }
    r
}

/// The key and the value of a line.
pub fn entry(line: &str) -> (r: (String, String))
    ensures
        (r.0@, r.1@) == entry_of(line@),
{
    proof {
        reveal_strlit(": ");
    }
    let chars: Vec<char> = chars_of(line);
    let mark: Vec<char> = chars_of(": ");
    let n: usize = chars.len();
    match find_in(&chars, &mark) {
        Some(i) => {
            assert(line@.subrange(0, i as int) =~= line@.take(i as int));
            assert(line@.subrange(i + 2, n as int) =~= line@.skip(i + 2));
            (slice_of(line, 0, i), slice_of(line, i + 2, n))
        },
        None => (String::from_str(line), String::new()),
    }
}

/// The keys and values of the lines of a text.
pub fn entries(content: &str) -> (r: Vec<(String, String)>)
    ensures
        entry_views(r@) == entries_of(content@),
{
    let all: Vec<String> = lines(content);
    let n: usize = all.len();
    let mut r: Vec<(String, String)> = Vec::new();
    let mut i: usize = 0;
    while i < n
        invariant
            n == all.len(),
            all.deep_view() == lines_of(content@),
            i <= n,
            r.len() == i,
            forall|j: int|
                0 <= j < i ==> ((#[trigger] r@[j]).0@, r@[j].1@) == entry_of(lines_of(content@)[j]),
        decreases n - i,
    {
        assert(all.deep_view()[i as int] == all@[i as int]@);
        r.push(entry(all[i].as_str()));
        i = i + 1;
    }
    assert(entry_views(r@) =~= entries_of(content@));
    r
}

/// Whether a field that takes `kind` takes `value`.
fn accepts(kind: Accept, value: &str) -> (r: bool)
    ensures
        r == accepted(kind, value@),
{
    match kind {
        Accept::Any => true,
        Accept::Filled => value.unicode_len() > 0,
        Accept::Number => Number::parse(value).is_some(),
        Accept::Date => CalendarDate::parse(value).is_some(),
    }
}

/// The index of the last entry with the key `key` that is taken, where
/// `taken` says of each entry whether its value is; an entry of which it
/// says nothing is not.
pub fn last_taken(entries: &Vec<(String, String)>, key: &str, taken: &Vec<bool>) -> (r: Option<
    usize,
>)
    ensures
        match last_marked(entry_views(entries@), key@, taken@) {
            Some(i) => r == Some(i as usize) && 0 <= i < entries.len(),
            None => r is None,
        },
{
    let ghost all = entry_views(entries@);
    let mut i: usize = entries.len();
    assert(all.take(i as int) =~= all);
    while i > 0
        invariant
            i <= entries.len(),
            all == entry_views(entries@),
            last_marked(all, key@, taken@) == last_marked(all.take(i as int), key@, taken@),
        decreases i,
    {
        let ghost front = all.take(i as int);
        assert(front.last() == (entries@[i - 1].0@, entries@[i - 1].1@));
        assert(front.drop_last() =~= all.take(i - 1));
        if same_text(entries[i - 1].0.as_str(), key) && i <= taken.len() && taken[i - 1] {
            return Some(i - 1);
        }
        i = i - 1;
    }
    None
}

/// The value that the entries give the field `key`.
pub fn value_for<'a>(entries: &'a Vec<(String, String)>, key: &str, kind: Accept) -> (r: Option<
    &'a str,
>)
    ensures
        match last_value(entry_views(entries@), key@, kind) {
            Some(value) => r matches Some(s) && s@ == value,
            None => r is None,
        },
{
    let ghost all = entry_views(entries@);
    let n: usize = entries.len();
    let mut taken: Vec<bool> = Vec::new();
    let mut i: usize = 0;
    while i < n
        invariant
            n == entries.len(),
            all == entry_views(entries@),
            i <= n,
            taken.len() == i,
            forall|j: int| 0 <= j < i ==> taken@[j] == accepted(kind, #[trigger] all[j].1),
        decreases n - i,
    {
        assert(all[i as int] == (entries@[i as int].0@, entries@[i as int].1@));
        taken.push(accepts(kind, entries[i].1.as_str()));
        i = i + 1;
    }
    proof {
        lemma_last_marked(all, key@, kind, taken@);
    }
    match last_taken(entries, key, &taken) {
        Some(found) => {
            assert(all[found as int] == (entries@[found as int].0@, entries@[found as int].1@));
            Some(entries[found].1.as_str())
        },
        None => None,
    }
}

/// The text of the field `key` after an edit with these entries.
fn text_after(entries: &Vec<(String, String)>, key: &str, kind: Accept, before: String) -> (r:
    String)
    ensures
        r@ == (match last_value(entry_views(entries@), key@, kind) {
            Some(value) => value,
            None => before@,
        }),
{
    match value_for(entries, key, kind) {
        Some(value) => String::from_str(value),
        None => before,
    }
}

/// The date of the field `key` after an edit with these entries.
fn date_after(entries: &Vec<(String, String)>, key: &str, before: CalendarDate) -> (r: CalendarDate)
    ensures
        r@ == (match last_value(entry_views(entries@), key@, Accept::Date) {
            Some(value) => date_read(value)->0,
            None => before@,
        }),
{
    proof {
        lemma_last_value_accepted(entry_views(entries@), key@, Accept::Date);
    }
    match value_for(entries, key, Accept::Date) {
        Some(value) => match CalendarDate::parse(value) {
            Some(date) => date,
            None => before,
        },
        None => before,
    }
}

/// The number of the field `key` after an edit with these entries.
fn number_after(entries: &Vec<(String, String)>, key: &str, before: Number) -> (r: Number)
    ensures
        r@ == (match last_value(entry_views(entries@), key@, Accept::Number) {
            Some(value) => value,
            None => before@,
        }),
{
    proof {
        lemma_last_value_accepted(entry_views(entries@), key@, Accept::Number);
    }
    match value_for(entries, key, Accept::Number) {
        Some(value) => match Number::parse(value) {
            Some(number) => number,
            None => before,
        },
        None => before,
    }
}

/// Adds one line of a record to `sheet`.
fn put_line(sheet: &mut String, key: &str, value: &str)
    ensures
        final(sheet)@ == old(sheet)@ + line_text(key@, value@),
{
    let ghost before = sheet@;
    sheet.append(key);
    sheet.append(": ");
    sheet.append(value);
    sheet.append("\n");
    assert(sheet@ =~= before + line_text(key@, value@));
}

/// A bike as a text to edit.
pub open spec fn bike_text(bike: BikeList) -> Seq<char> {
    line_text("id"@, int_text(bike.id as int)) + line_text(
        "bike_id"@,
        int_text(bike.bike_id as int),
    ) + line_text("code"@, bike.code@) + line_text("name"@, bike.name@) + line_text(
        "date"@,
        iso_text(bike.added@),
    )
}

/// A purchase as a text to edit.
pub open spec fn buy_text(buy: BuyList) -> Seq<char> {
    line_text("id"@, int_text(buy.id as int)) + line_text("buy_id"@, int_text(buy.buy_id as int))
        + line_text("target"@, buy.target@) + line_text("tags"@, buy.tags@) + line_text(
        "name"@,
        buy.name@,
    ) + line_text("price"@, buy.price@) + line_text("date"@, iso_text(buy.date@))
}

/// A category as a text to edit.
pub open spec fn category_text(category: Category) -> Seq<char> {
    line_text("id"@, int_text(category.id as int)) + line_text("abbr"@, category.abbr@)
        + line_text("name"@, category.name@)
}

/// A chain lubrication as a text to edit.
pub open spec fn lub_text(lub: ChainLubricationList) -> Seq<char> {
    line_text("id"@, int_text(lub.lub_id as int)) + line_text("bike"@, lub.bike@) + line_text(
        "date"@,
        iso_text(lub.date@),
    ) + line_text("annotation"@, lub.annotation@)
}

/// A ride as a text to edit.
pub open spec fn ride_text(ride: RideList) -> Seq<char> {
    line_text("id"@, int_text(ride.id as int)) + line_text(
        "ride_id"@,
        int_text(ride.ride_id as int),
    ) + line_text("bike"@, ride.bike@) + line_text("date"@, iso_text(ride.date@)) + line_text(
        "distance"@,
        ride.distance@,
    ) + line_text("tags"@, ride.tags@) + line_text("annotation"@, ride.annotation@)
}

/// A bike as a text to edit.
pub fn bike_sheet(bike: &BikeList) -> (r: String)
    ensures
        r@ == bike_text(*bike),
{
    let mut r: String = String::new();
    assert(r@ + line_text("id"@, int_text(bike.id as int)) =~= line_text(
        "id"@,
        int_text(bike.id as int),
    ));
    put_line(&mut r, "id", int_string(bike.id).as_str());
    put_line(&mut r, "bike_id", int_string(bike.bike_id).as_str());
    put_line(&mut r, "code", bike.code.as_str());
    put_line(&mut r, "name", bike.name.as_str());
    put_line(&mut r, "date", bike.added.text().as_str());
    r
}

/// A purchase as a text to edit.
pub fn buy_sheet(buy: &BuyList) -> (r: String)
    ensures
        r@ == buy_text(*buy),
{
    let mut r: String = String::new();
    assert(r@ + line_text("id"@, int_text(buy.id as int)) =~= line_text(
        "id"@,
        int_text(buy.id as int),
    ));
    put_line(&mut r, "id", int_string(buy.id).as_str());
    put_line(&mut r, "buy_id", int_string(buy.buy_id).as_str());
    put_line(&mut r, "target", buy.target.as_str());
    put_line(&mut r, "tags", buy.tags.as_str());
    put_line(&mut r, "name", buy.name.as_str());
    put_line(&mut r, "price", buy.price.as_str());
    put_line(&mut r, "date", buy.date.text().as_str());
    r
}

/// A category as a text to edit.
pub fn category_sheet(category: &Category) -> (r: String)
    ensures
        r@ == category_text(*category),
{
    let mut r: String = String::new();
    assert(r@ + line_text("id"@, int_text(category.id as int)) =~= line_text(
        "id"@,
        int_text(category.id as int),
    ));
    put_line(&mut r, "id", int_string(category.id).as_str());
    put_line(&mut r, "abbr", category.abbr.as_str());
    put_line(&mut r, "name", category.name.as_str());
    r
}

/// A chain lubrication as a text to edit.
pub fn lub_sheet(lub: &ChainLubricationList) -> (r: String)
    ensures
        r@ == lub_text(*lub),
{
    let mut r: String = String::new();
    assert(r@ + line_text("id"@, int_text(lub.lub_id as int)) =~= line_text(
        "id"@,
        int_text(lub.lub_id as int),
    ));
    put_line(&mut r, "id", int_string(lub.lub_id).as_str());
    put_line(&mut r, "bike", lub.bike.as_str());
    put_line(&mut r, "date", lub.date.text().as_str());
    put_line(&mut r, "annotation", lub.annotation.as_str());
    r
}

/// A ride as a text to edit.
pub fn ride_sheet(ride: &RideList) -> (r: String)
    ensures
        r@ == ride_text(*ride),
{
    let mut r: String = String::new();
    assert(r@ + line_text("id"@, int_text(ride.id as int)) =~= line_text(
        "id"@,
        int_text(ride.id as int),
    ));
    put_line(&mut r, "id", int_string(ride.id).as_str());
    put_line(&mut r, "ride_id", int_string(ride.ride_id).as_str());
    put_line(&mut r, "bike", ride.bike.as_str());
    put_line(&mut r, "date", ride.date.text().as_str());
    put_line(&mut r, "distance", ride.distance.as_str());
    put_line(&mut r, "tags", ride.tags.as_str());
    put_line(&mut r, "annotation", ride.annotation.as_str());
    r
}

/// The bike after the edit `content`: its code, its name and its date are
/// as the edit gives them; its position and its key cannot be edited.
pub fn edit_bike(bike: BikeList, content: &str) -> (r: BikeList)
    ensures
        r.id == bike.id,
        r.bike_id == bike.bike_id,
        r.code@ == edited(content@, "code"@, Accept::Any, bike.code@),
        r.name@ == edited(content@, "name"@, Accept::Any, bike.name@),
        r.added@ == edited_date(content@, "date"@, bike.added@),
{
    let given: Vec<(String, String)> = entries(content);
    BikeList {
        id: bike.id,
        bike_id: bike.bike_id,
        code: text_after(&given, "code", Accept::Any, bike.code),
        name: text_after(&given, "name", Accept::Any, bike.name),
        added: date_after(&given, "date", bike.added),
    }
}

/// The purchase after the edit `content`: what it is for, its tags, its
/// name, its price and its date are as the edit gives them.
pub fn edit_buy(buy: BuyList, content: &str) -> (r: BuyList)
    ensures
        r.id == buy.id,
        r.buy_id == buy.buy_id,
        r.target@ == edited(content@, "target"@, Accept::Any, buy.target@),
        r.tags@ == edited(content@, "tags"@, Accept::Any, buy.tags@),
        r.name@ == edited(content@, "name"@, Accept::Any, buy.name@),
        r.price@ == edited(content@, "price"@, Accept::Number, buy.price@),
        r.date@ == edited_date(content@, "date"@, buy.date@),
{
    let given: Vec<(String, String)> = entries(content);
    BuyList {
        id: buy.id,
        buy_id: buy.buy_id,
        target: text_after(&given, "target", Accept::Any, buy.target),
        tags: text_after(&given, "tags", Accept::Any, buy.tags),
        name: text_after(&given, "name", Accept::Any, buy.name),
        price: number_after(&given, "price", buy.price),
        date: date_after(&given, "date", buy.date),
    }
}

/// The category after the edit `content`: its code and its name are as the
/// edit gives them, and neither is ever empty.
pub fn edit_cat(category: Category, content: &str) -> (r: Category)
    ensures
        r.id == category.id,
        r.abbr@ == edited(content@, "abbr"@, Accept::Filled, category.abbr@),
        r.name@ == edited(content@, "name"@, Accept::Filled, category.name@),
{
    let given: Vec<(String, String)> = entries(content);
    Category {
        id: category.id,
        abbr: text_after(&given, "abbr", Accept::Filled, category.abbr),
        name: text_after(&given, "name", Accept::Filled, category.name),
    }
}

/// The chain lubrication after the edit `content`: its bike, its date and
/// its annotation are as the edit gives them.
pub fn edit_lub(lub: ChainLubricationList, content: &str) -> (r: ChainLubricationList)
    ensures
        r.id == lub.id,
        r.lub_id == lub.lub_id,
        r.passed@ == lub.passed@,
        r.bike@ == edited(content@, "bike"@, Accept::Any, lub.bike@),
        r.date@ == edited_date(content@, "date"@, lub.date@),
        r.annotation@ == edited(content@, "annotation"@, Accept::Any, lub.annotation@),
{
    let given: Vec<(String, String)> = entries(content);
    ChainLubricationList {
        id: lub.id,
        lub_id: lub.lub_id,
        bike: text_after(&given, "bike", Accept::Any, lub.bike),
        date: date_after(&given, "date", lub.date),
        passed: lub.passed,
        annotation: text_after(&given, "annotation", Accept::Any, lub.annotation),
    }
}

/// The ride after the edit `content`: its bike, its date, its distance, its
/// tags and its annotation are as the edit gives them.
pub fn edit_ride(ride: RideList, content: &str) -> (r: RideList)
    ensures
        r.id == ride.id,
        r.ride_id == ride.ride_id,
        r.bike@ == edited(content@, "bike"@, Accept::Any, ride.bike@),
        r.date@ == edited_date(content@, "date"@, ride.date@),
        r.distance@ == edited(content@, "distance"@, Accept::Number, ride.distance@),
        r.tags@ == edited(content@, "tags"@, Accept::Any, ride.tags@),
        r.annotation@ == edited(content@, "annotation"@, Accept::Any, ride.annotation@),
{
    let given: Vec<(String, String)> = entries(content);
    RideList {
        id: ride.id,
        ride_id: ride.ride_id,
        bike: text_after(&given, "bike", Accept::Any, ride.bike),
        date: date_after(&given, "date", ride.date),
        distance: number_after(&given, "distance", ride.distance),
        tags: text_after(&given, "tags", Accept::Any, ride.tags),
        annotation: text_after(&given, "annotation", Accept::Any, ride.annotation),
    }
}

} // verus!
