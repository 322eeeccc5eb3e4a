//! Choosing the one row of a list that a command is about.

use vstd::prelude::*;
use vstd::string::*;

verus! {

/// Why no row was chosen.
#[derive(Clone, Copy, Debug, PartialEq, Eq, Structural)]
pub enum LookupError {
    /// The list is empty, or it has no row at the position asked for.
    NotFound,
    /// The list has several rows and no position was given.
    Ambiguous,
}

/// The index of the row that is meant, in a list of `len` rows. A position
/// counts from 1 and has to lie in the list. Without a position the list has
/// to hold one row, which is then the one.
pub open spec fn chosen(len: nat, position: Option<u32>) -> Result<nat, LookupError> {
    if len == 0 {
        Err(LookupError::NotFound)
    } else {
        match position {
            Some(p) => if 1 <= p <= len {
                Ok((p - 1) as nat)
            } else {
                Err(LookupError::NotFound)
            },
            None => if len == 1 {
                Ok(0)
            } else {
                Err(LookupError::Ambiguous)
            },
        }
    }
}

/// The index of the row that is meant, in a list of `len` rows.
pub fn select_one(len: usize, position: Option<u32>) -> (r: Result<usize, LookupError>)
    ensures
        match chosen(len as nat, position) {
            Ok(i) => r == Ok::<usize, LookupError>(i as usize) && i < len,
            Err(e) => r == Err::<usize, LookupError>(e),
        },
{
    if len == 0 {
        return Err(LookupError::NotFound);
    }
    match position {
        Some(p) => {
            let index: usize = if p >= 1 {
                (p - 1) as usize
            } else {
                len
            };
            if index < len {
                Ok(index)
            } else {
                Err(LookupError::NotFound)
            }
        },
        None => {
            if len == 1 {
                Ok(0)
            } else {
                Err(LookupError::Ambiguous)
            }
        },
    }
}

/// What is said where no row was chosen; `what` names the kind of entity.
pub open spec fn lookup_text(e: LookupError, what: Seq<char>) -> Seq<char> {
    match e {
        LookupError::NotFound => what + " for your request was not found."@,
        LookupError::Ambiguous => "Not enough params. Can't select 1 "@ + what + "."@,
    }
}

/// What is said where no row was chosen; `what` names the kind of entity.
pub fn lookup_message(e: LookupError, what: &str) -> (r: String)
    ensures
        r@ == lookup_text(e, what@),
{
    match e {
        LookupError::NotFound => {
            let mut r: String = String::from_str(what);
            r.append(" for your request was not found.");
            r
        },
        LookupError::Ambiguous => {
            let mut r: String = String::from_str("Not enough params. Can't select 1 ");
            r.append(what);
            r.append(".");
            r
        },
    }
}

} // verus!
