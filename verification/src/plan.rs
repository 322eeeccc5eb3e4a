//! What a handler takes from a command before it touches the store: which
//! entity is meant, whether the command says enough, and the texts that are
//! written.

use crate::command::{text_of, Command, CommandView};
use crate::route::Target;
use crate::text::{chars_of, join, join_texts};
use vstd::prelude::*;
use vstd::string::*;

verus! {

/// How a command names the entity that it is about.
#[derive(Clone, Copy, Debug, PartialEq, Eq, Structural)]
pub enum Selector {
    /// By its key in the store.
    Key(u32),
    /// By its position in the list that the command's filters give.
    Position(u32),
}

/// Why a command cannot be carried out as it is.
#[derive(Clone, Copy, Debug, PartialEq, Eq, Structural)]
pub enum PlanError {
    /// A bike is named by its category and its number: one of the two is
    /// missing.
    HalfBike,
}

/// How the command names its entity: by the key where it has one, else by
/// the position; not at all where it has neither.
pub open spec fn selected(c: CommandView) -> Option<Selector> {
    match c.real_id {
        Some(key) => Some(Selector::Key(key)),
        None => match c.id {
            Some(position) => Some(Selector::Position(position)),
            None => None,
        },
    }
}

/// The annotation as one text, its words with a space between each two;
/// nothing where there is no word.
pub open spec fn note(c: CommandView) -> Option<Seq<char>> {
    if c.annotation.len() == 0 {
        None
    } else {
        Some(join(c.annotation, " "@))
    }
}

/// Whether the command says enough to add an entity of the kind `target`: a
/// category or a bike wants a category code and a name; a chain lubrication
/// the bike, by category and number; a purchase a price and a name; a ride
/// the bike and a distance. Tags are not added by themselves.
pub open spec fn can_add(c: CommandView, target: Target) -> bool {
    match target {
        Target::Cat => c.category is Some && c.annotation.len() > 0,
        Target::Bike => c.category is Some && c.annotation.len() > 0,
        Target::Lub => c.category is Some && c.bike_id is Some,
        Target::Buy => c.val is Some && c.annotation.len() > 0,
        Target::Ride => c.category is Some && c.bike_id is Some && c.val is Some,
        Target::Tag => false,
    }
}

/// Whether the command says anything of a purchase or a ride.
pub open spec fn says_anything(c: CommandView) -> bool {
    ||| c.val is Some
    ||| c.date.some()
    ||| c.category is Some
    ||| c.bike_id is Some
    ||| c.include_tags.len() > 0
    ||| c.exclude_tags.len() > 0
    ||| c.annotation.len() > 0
}

/// Whether the command asks for any change of an entity of the kind
/// `target`, or why it cannot be asked. A chain lubrication is moved to
/// another bike by category and number together; a ride as well, though a
/// number without a category is passed over.
pub open spec fn update_asked(c: CommandView, target: Target) -> Result<bool, PlanError> {
    match target {
        Target::Bike => Ok(c.category is Some || c.annotation.len() > 0 || c.date.some()),
        Target::Buy => Ok(says_anything(c)),
        Target::Cat => Ok(c.annotation.len() > 0 || c.category is Some),
        Target::Lub => if (c.bike_id is None) != (c.category is None) {
            Err(PlanError::HalfBike)
        } else {
            Ok(c.bike_id is Some || c.annotation.len() > 0 || c.date.some())
        },
        Target::Ride => if !says_anything(c) {
            Ok(false)
        } else if c.category is Some && c.bike_id is None {
            Err(PlanError::HalfBike)
        } else {
            Ok(true)
        },
        Target::Tag => Ok(c.annotation.len() > 0 || c.include_tags.len() > 0),
    }
}

/// The new names of tags: the tags after `+` are the old names, the words of
/// the annotation the new ones, pair by pair as far as both go.
pub open spec fn renamed(c: CommandView) -> Seq<(Seq<char>, Seq<char>)> {
    Seq::new(
        if c.include_tags.len() <= c.annotation.len() {
            c.include_tags.len()
        } else {
            c.annotation.len()
        },
        |i: int| (c.include_tags[i], c.annotation[i]),
    )
}

/// The tags to delete: those after `+`, those after `-` and the words of the
/// annotation.
pub open spec fn doomed(c: CommandView) -> Seq<Seq<char>> {
    c.include_tags + c.exclude_tags + c.annotation
}

/// The views of pairs of texts.
pub open spec fn pair_views(pairs: Seq<(String, String)>) -> Seq<(Seq<char>, Seq<char>)> {
    Seq::new(pairs.len(), |i: int| (pairs[i].0@, pairs[i].1@))
}

/// How the command names its entity.
pub fn selector(command: &Command) -> (r: Option<Selector>)
    ensures
        r == selected(command@),
{
    match command.real_id.as_ref() {
        Some(key) => Some(Selector::Key(*key)),
        None => match command.id.as_ref() {
            Some(position) => Some(Selector::Position(*position)),
            None => None,
        },
    }
}

/// The annotation as one text; nothing where there is no word.
pub fn note_of(command: &Command) -> (r: Option<String>)
    ensures
        text_of(r) == note(command@),
{
    if command.annotation.len() == 0 {
        None
    } else {
        Some(join_texts(&command.annotation, " "))
    }
}

/// Whether the command says enough to add an entity of the kind `target`.
pub fn ready_to_add(command: &Command, target: Target) -> (r: bool)
    ensures
        r == can_add(command@, target),
{
    let named: bool = command.annotation.len() > 0;
    match target {
        Target::Cat => command.category.is_some() && named,
        Target::Bike => command.category.is_some() && named,
        Target::Lub => command.category.is_some() && command.bike_id.is_some(),
        Target::Buy => command.val.is_some() && named,
        Target::Ride => command.category.is_some() && command.bike_id.is_some()
            && command.val.is_some(),
        Target::Tag => false,
    }
}

/// Whether the command says anything of a purchase or a ride.
fn anything_said(command: &Command) -> (r: bool)
    ensures
        r == says_anything(command@),
{
    command.val.is_some() || command.date.is_some() || command.category.is_some()
        || command.bike_id.is_some() || !command.include_tags.is_empty()
        || !command.exclude_tags.is_empty() || command.annotation.len() > 0
}

/// Whether the command asks for any change of an entity of the kind
/// `target`, or why it cannot be asked.
pub fn asks_update(command: &Command, target: Target) -> (r: Result<bool, PlanError>)
    ensures
        r == update_asked(command@, target),
{
    let noted: bool = command.annotation.len() > 0;
    match target {
        Target::Bike => Ok(command.category.is_some() || noted || command.date.is_some()),
        Target::Buy => Ok(anything_said(command)),
        Target::Cat => Ok(noted || command.category.is_some()),
        Target::Lub => {
            if command.bike_id.is_none() != command.category.is_none() {
                Err(PlanError::HalfBike)
            } else {
                Ok(command.bike_id.is_some() || noted || command.date.is_some())
            }
        },
        Target::Ride => {
            if !anything_said(command) {
                Ok(false)
            } else if command.category.is_some() && command.bike_id.is_none() {
                Err(PlanError::HalfBike)
            } else {
                Ok(true)
            }
        },
        Target::Tag => Ok(noted || !command.include_tags.is_empty()),
    }
}

/// The new names of tags, pair by pair: the old name and the new one.
pub fn renames(command: &Command) -> (r: Vec<(String, String)>)
    ensures
        pair_views(r@) == renamed(command@),
{
    let old_names: &Vec<String> = command.include_tags.names();
    let n: usize = if old_names.len() <= command.annotation.len() {
        old_names.len()
    } else {
        command.annotation.len()
    };
    let mut r: Vec<(String, String)> = Vec::new();
    let mut i: usize = 0;
    while i < n
        invariant
            n <= old_names.len(),
            n <= command.annotation.len(),
            old_names.deep_view() == command@.include_tags,
            i <= n,
            r.len() == i,
            forall|j: int|
                0 <= j < i ==> (#[trigger] r@[j]).0@ == command@.include_tags[j] && r@[j].1@
                    == command@.annotation[j],
        decreases n - i,
    {
        assert(old_names.deep_view()[i as int] == old_names@[i as int]@);
        assert(command@.annotation[i as int] == command.annotation@[i as int]@);
        r.push((old_names[i].clone(), command.annotation[i].clone()));
        i = i + 1;
    }
    assert(pair_views(r@) =~= renamed(command@));
    r
}

/// Adds clones of the texts of `from` at the end of `to`.
fn extend(to: &mut Vec<String>, from: &Vec<String>)
    ensures
        final(to).deep_view() == old(to).deep_view() + from.deep_view(),
{
    let ghost before = to.deep_view();
    let n: usize = from.len();
    let mut i: usize = 0;
    assert(before + from.deep_view().take(0) =~= before);
    while i < n
        invariant
            n == from.len(),
            i <= n,
            to.deep_view() == before + from.deep_view().take(i as int),
        decreases n - i,
    {
        let ghost so_far = to.deep_view();
        to.push(from[i].clone());
        assert(to.deep_view() =~= so_far.push(from@[i as int]@));
        assert(from.deep_view().take(i + 1) =~= from.deep_view().take(i as int).push(
            from@[i as int]@,
        ));
        assert(to.deep_view() =~= before + from.deep_view().take(i + 1));
        i = i + 1;
    }
    assert(from.deep_view().take(n as int) =~= from.deep_view());
}

/// The tags to delete.
pub fn tags_to_delete(command: &Command) -> (r: Vec<String>)
    ensures
        r.deep_view() == doomed(command@),
{
    let mut r: Vec<String> = Vec::new();
    assert(r.deep_view() =~= Seq::<Seq<char>>::empty());
    extend(&mut r, command.include_tags.names());
    extend(&mut r, command.exclude_tags.names());
    extend(&mut r, &command.annotation);
    assert(r.deep_view() =~= doomed(command@));
    r
}

/// What was answered when the deletion of tags was to be confirmed.
#[derive(Clone, Copy, Debug, PartialEq, Eq, Structural)]
pub enum Choice {
    /// `y`: all tags are deleted.
    All,
    /// `a`: each tag is asked for.
    Ask,
    /// Anything else: nothing is deleted.
    Cancel,
}

/// Whether `c` is white space.
pub open spec fn is_space(c: char) -> bool {
    ||| '\u{9}' <= c <= '\u{d}'
    ||| c == ' '
    ||| c == '\u{85}'
    ||| c == '\u{a0}'
    ||| c == '\u{1680}'
    ||| '\u{2000}' <= c <= '\u{200a}'
    ||| c == '\u{2028}'
    ||| c == '\u{2029}'
    ||| c == '\u{202f}'
    ||| c == '\u{205f}'
    ||| c == '\u{3000}'
}

/// Whether `s` is the one letter `small` or `capital` with nothing but white
/// space around it.
pub open spec fn is_letter(s: Seq<char>, small: char, capital: char) -> bool {
    exists|i: int|
        0 <= i < s.len() && (#[trigger] s[i] == small || s[i] == capital) && forall|j: int|
            0 <= j < s.len() && j != i ==> is_space(#[trigger] s[j])
}

/// The choice that an answer makes: `y` or `Y` for all, `a` or `A` to be
/// asked, with white space around it or not.
pub open spec fn chosen_by(answer: Seq<char>) -> Choice {
    if is_letter(answer, 'y', 'Y') {
        Choice::All
    } else if is_letter(answer, 'a', 'A') {
        Choice::Ask
    } else {
        Choice::Cancel
    }
}

/// Whether `c` is white space.
fn space(c: char) -> (r: bool)
    ensures
        r == is_space(c),
{
    (c >= '\u{9}' && c <= '\u{d}') || c == ' ' || c == '\u{85}' || c == '\u{a0}' || c
        == '\u{1680}' || (c >= '\u{2000}' && c <= '\u{200a}') || c == '\u{2028}' || c
        == '\u{2029}' || c == '\u{202f}' || c == '\u{205f}' || c == '\u{3000}'
}

/// Whether `v` is the one letter `small` or `capital` with nothing but white
/// space around it.
fn letter(v: &Vec<char>, small: char, capital: char) -> (r: bool)
    requires
        !is_space(small),
        !is_space(capital),
    ensures
        r == is_letter(v@, small, capital),
{
    let n: usize = v.len();
    let mut i: usize = 0;
    while i < n && space(v[i])
        invariant
            n == v.len(),
            i <= n,
            forall|j: int| 0 <= j < i ==> is_space(#[trigger] v@[j]),
        decreases n - i,
    {
        i = i + 1;
    }
    if i == n {
        return false;
    }
    if !(v[i] == small || v[i] == capital) {
        assert(!is_space(v@[i as int]));
        return false;
    }
    let found: usize = i;
    i = i + 1;
    while i < n && space(v[i])
        invariant
            n == v.len(),
            found < i <= n,
            forall|j: int| found < j < i ==> is_space(#[trigger] v@[j]),
        decreases n - i,
    {
        i = i + 1;
    }
    if i < n {
        assert(!is_space(v@[i as int]));
        assert(!is_space(v@[found as int]));
        return false;
    }
    assert(v@[found as int] == small || v@[found as int] == capital);
    true
}

/// The choice that an answer makes.
pub fn choice_of(answer: &str) -> (r: Choice)
    ensures
        r == chosen_by(answer@),
{
    let v: Vec<char> = chars_of(answer);
    if letter(&v, 'y', 'Y') {
        Choice::All
    } else if letter(&v, 'a', 'A') {
        Choice::Ask
    } else {
        Choice::Cancel
    }
}

} // verus!
