//! Which handler a command goes to.

use crate::command::{Command, CommandView};
use crate::text::same_text;
use vstd::prelude::*;
use vstd::string::*;

verus! {

/// The kinds of entity that a command can be about.
#[derive(Clone, Copy, Debug, PartialEq, Eq, Structural)]
pub enum Target {
    Bike,
    Buy,
    Cat,
    Lub,
    Ride,
    Tag,
}

/// What is done with the entities.
#[derive(Clone, Copy, Debug, PartialEq, Eq, Structural)]
pub enum Handler {
    /// A new entity is written.
    Add,
    /// An entity is deleted.
    Delete,
    /// An entity is changed in the editor and written back.
    Edit,
    /// An entity is shown in the editor.
    Editor,
    /// What is known of an entity is shown.
    Info,
    /// The entities are listed.
    List,
    /// An entity is changed as the command says.
    Update,
}

/// Why a command goes nowhere.
#[derive(Clone, Copy, Debug, PartialEq, Eq, Structural)]
pub enum RouteError {
    /// The command has no verb.
    NoVerb,
    /// The verb needs a kind of entity and the command has none.
    NoObject,
}

/// The kind of entity that `object` names.
pub open spec fn target_named(object: Seq<char>) -> Option<Target> {
    if object == "bike"@ {
        Some(Target::Bike)
    } else if object == "buy"@ {
        Some(Target::Buy)
    } else if object == "cat"@ {
        Some(Target::Cat)
    } else if object == "lub"@ {
        Some(Target::Lub)
    } else if object == "ride"@ {
        Some(Target::Ride)
    } else if object == "tag"@ {
        Some(Target::Tag)
    } else {
        None
    }
}

/// Whether a handler deals with a kind of entity.
pub open spec fn serves(handler: Handler, target: Target) -> bool {
    match handler {
        Handler::Add => target != Target::Tag,
        Handler::Delete => true,
        Handler::Edit => target != Target::Tag,
        Handler::Editor => target != Target::Tag,
        Handler::Info => target == Target::Bike || target == Target::Cat || target == Target::Lub,
        Handler::List => true,
        Handler::Update => true,
    }
}

/// The kind of entity that `object` names, where `handler` deals with it.
pub open spec fn served(handler: Handler, object: Seq<char>) -> Option<Target> {
    match target_named(object) {
        Some(target) => if serves(handler, target) {
            Some(target)
        } else {
            None
        },
        None => None,
    }
}

/// Where a command goes: to the handler of its verb, for the kind of entity
/// that it names. `add` and `list` go to their handlers. `mod` goes to the
/// update where the entity is given by its key in the store, or tags are
/// meant, and to the editor otherwise. Every other verb goes nowhere, and so
/// does a kind of entity that the handler does not deal with.
pub open spec fn routed(c: CommandView) -> Result<Option<(Handler, Target)>, RouteError> {
    match c.funk {
        None => Err(RouteError::NoVerb),
        Some(verb) => {
            let handler = if verb == "add"@ {
                Some(Handler::Add)
            } else if verb == "list"@ {
                Some(Handler::List)
            } else if verb == "mod"@ {
                if c.real_id is Some || c.object == Some("tag"@) {
                    Some(Handler::Update)
                } else {
                    Some(Handler::Editor)
                }
            } else {
                None
            };
            match handler {
                None => Ok(None),
                Some(h) => match c.object {
                    None => Err(RouteError::NoObject),
                    Some(object) => match served(h, object) {
                        Some(target) => Ok(Some((h, target))),
                        None => Ok(None),
                    },
                },
            }
        },
    }
}

/// The kind of entity that `object` names.
pub fn target_of(object: &str) -> (r: Option<Target>)
    ensures
        r == target_named(object@),
{
    if same_text(object, "bike") {
        Some(Target::Bike)
    } else if same_text(object, "buy") {
        Some(Target::Buy)
    } else if same_text(object, "cat") {
        Some(Target::Cat)
    } else if same_text(object, "lub") {
        Some(Target::Lub)
    } else if same_text(object, "ride") {
        Some(Target::Ride)
    } else if same_text(object, "tag") {
        Some(Target::Tag)
    } else {
        None
    }
}

/// Whether a handler deals with a kind of entity.
pub fn deals_with(handler: Handler, target: Target) -> (r: bool)
    ensures
        r == serves(handler, target),
{
    let tag: bool = match target {
        Target::Tag => true,
        _ => false,
    };
    match handler {
        Handler::Add => !tag,
        Handler::Delete => true,
        Handler::Edit => !tag,
        Handler::Editor => !tag,
        Handler::Info => match target {
            Target::Bike => true,
            Target::Cat => true,
            Target::Lub => true,
            _ => false,
        },
        Handler::List => true,
        Handler::Update => true,
    }
}

/// The kind of entity that `object` names, where `handler` deals with it.
pub fn handler_target(handler: Handler, object: &str) -> (r: Option<Target>)
    ensures
        r == served(handler, object@),
{
    match target_of(object) {
        Some(target) => {
            if deals_with(handler, target) {
                Some(target)
            } else {
                None
            }
        },
        None => None,
    }
}

/// Where a command goes.
pub fn route(command: &Command) -> (r: Result<Option<(Handler, Target)>, RouteError>)
    ensures
        r == routed(command@),
{
    let verb: &String = match command.funk.as_ref() {
        Some(v) => v,
        None => {
            return Err(RouteError::NoVerb);
        },
    };
    let handler: Handler = if same_text(verb.as_str(), "add") {
        Handler::Add
    } else if same_text(verb.as_str(), "list") {
        Handler::List
    } else if same_text(verb.as_str(), "mod") {
        let tags: bool = match command.object.as_ref() {
            Some(object) => same_text(object.as_str(), "tag"),
            None => false,
        };
        if command.real_id.is_some() || tags {
            Handler::Update
        } else {
            Handler::Editor
        }
    } else {
        return Ok(None);
    };
    match command.object.as_ref() {
        None => Err(RouteError::NoObject),
        Some(object) => match handler_target(handler, object.as_str()) {
            Some(target) => Ok(Some((handler, target))),
            None => Ok(None),
        },
    }
}

} // verus!
