//! Statements whose shape depends on how many values they take.

use crate::query::Entity;
use crate::text::{decimal_string, decimal_text, join, join_texts};
use vstd::prelude::*;
use vstd::string::*;

verus! {

/// The statement that gives the keys of the entities with a tag, the name of
/// the tag being its one value. Only purchases and rides have tags.
pub open spec fn tagged_of(entity: Entity) -> Option<Seq<char>> {
    match entity {
        Entity::Buy => Some(
            "SELECT b.id FROM buy b JOIN tag_to_buy tb ON b.id = tb.buy_id JOIN tag t ON tb.tag_id = t.id WHERE t.name = ?1"@,
        ),
        Entity::Ride => Some(
            "SELECT r.id FROM ride r JOIN tag_to_ride tr ON r.id = tr.ride_id JOIN tag t ON tr.tag_id = t.id WHERE t.name = ?1"@,
        ),
        _ => None,
    }
}

/// The statement that gives the keys of the entities with a tag.
pub fn tagged_statement(entity: Entity) -> (r: Option<&'static str>)
    ensures
        r is Some <==> tagged_of(entity) is Some,
        r matches Some(s) ==> Some(s@) == tagged_of(entity),
{
    match entity {
        Entity::Buy => Some(
            "SELECT b.id FROM buy b JOIN tag_to_buy tb ON b.id = tb.buy_id JOIN tag t ON tb.tag_id = t.id WHERE t.name = ?1",
        ),
        Entity::Ride => Some(
            "SELECT r.id FROM ride r JOIN tag_to_ride tr ON r.id = tr.ride_id JOIN tag t ON tr.tag_id = t.id WHERE t.name = ?1",
        ),
        _ => None,
    }
}

/// The position `n` as it stands in a statement.
pub open spec fn placeholder(n: nat) -> Seq<char> {
    "?"@ + decimal_text(n)
}

/// The positions 1 to `n`.
pub open spec fn placeholders(n: nat) -> Seq<Seq<char>> {
    Seq::new(n, |i: int| placeholder((i + 1) as nat))
}

/// The statement that deletes the tags with `n` given names.
pub open spec fn delete_tags_text(n: nat) -> Seq<char> {
    "DELETE FROM tag WHERE name IN ("@ + join(placeholders(n), ", "@) + ")"@
}

/// Each column set to the value at its position, counted from 1.
pub open spec fn assignments(columns: Seq<Seq<char>>) -> Seq<Seq<char>> {
    Seq::new(columns.len(), |i: int| columns[i] + " = "@ + placeholder((i + 1) as nat))
}

/// The statement that sets `columns` of the row of `table` with a given
/// key. The values come first, in the order of the columns, and the key
/// last.
pub open spec fn update_text(table: Seq<char>, columns: Seq<Seq<char>>) -> Seq<char> {
    "UPDATE "@ + table + " SET "@ + join(assignments(columns), ", "@) + " WHERE id = "@
        + placeholder(columns.len() + 1)
}

/// The position `n` as it stands in a statement.
fn placeholder_text(n: usize) -> (r: String)
    ensures
        r@ == placeholder(n as nat),
{
    let mut r: String = String::from_str("?");
    r.append(decimal_string(n as u64).as_str());
    r
}

/// The statement that deletes the tags with `n` given names.
pub fn delete_tags_statement(n: usize) -> (r: String)
    requires
        n < usize::MAX,
    ensures
        r@ == delete_tags_text(n as nat),
{
    let mut parts: Vec<String> = Vec::new();
    let mut i: usize = 0;
    while i < n
        invariant
            n < usize::MAX,
            i <= n,
            parts.len() == i,
            forall|j: int| 0 <= j < i ==> parts@[j]@ == placeholders(n as nat)[j],
        decreases n - i,
    {
        parts.push(placeholder_text(i + 1));
        i = i + 1;
    }
    assert(parts.deep_view() =~= placeholders(n as nat));
    let mut r: String = String::from_str("DELETE FROM tag WHERE name IN (");
    r.append(join_texts(&parts, ", ").as_str());
    r.append(")");
    r
}

/// The statement that sets `columns` of the row of `table` with a given key.
pub fn update_statement(table: &str, columns: &Vec<String>) -> (r: String)
    requires
        columns.len() < usize::MAX,
    ensures
        r@ == update_text(table@, columns.deep_view()),
{
    let n: usize = columns.len();
    let ghost names = columns.deep_view();
    let mut parts: Vec<String> = Vec::new();
    let mut i: usize = 0;
    while i < n
        invariant
            n == columns.len(),
            n < usize::MAX,
            names == columns.deep_view(),
            i <= n,
            parts.len() == i,
            forall|j: int| 0 <= j < i ==> parts@[j]@ == assignments(names)[j],
        decreases n - i,
    {
        assert(names[i as int] == columns@[i as int]@);
        let mut part: String = columns[i].clone();
        part.append(" = ");
        part.append(placeholder_text(i + 1).as_str());
        parts.push(part);
        i = i + 1;
    }
    assert(parts.deep_view() =~= assignments(names));
    let mut r: String = String::from_str("UPDATE ");
    r.append(table);
    r.append(" SET ");
    r.append(join_texts(&parts, ", ").as_str());
    r.append(" WHERE id = ");
    r.append(placeholder_text(n + 1).as_str());
    r
}

} // verus!
