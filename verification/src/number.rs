//! Prices and distances, kept as they were written.

use crate::text::{is_float, is_float_literal};
use vstd::prelude::*;
use vstd::string::*;

verus! {

/// A number in the text of its literal. The library only tells whether a
/// token is a number and hands the literal on: it never computes with one.
#[derive(Debug)]
pub struct Number {
    text: String,
}

impl View for Number {
    type V = Seq<char>;

    closed spec fn view(&self) -> Seq<char> {
        self.text@
    }
}

impl Number {
    #[verifier::type_invariant]
    spec fn well_formed(self) -> bool {
        is_float_literal(self@)
    }

    /// The number that `s` writes, where it writes one.
    pub fn parse(s: &str) -> (r: Option<Number>)
        ensures
            r is Some <==> is_float_literal(s@),
            r matches Some(n) ==> n@ == s@,
    {
        if is_float(s) {
            Some(Number { text: String::from_str(s) })
        } else {
            None
        }
    }

    /// The literal.
    pub fn as_str(&self) -> (r: &str)
        ensures
            r@ == self@,
            is_float_literal(self@),
    {
        proof {
            use_type_invariant(self);
        }
        self.text.as_str()
    }

    /// The same number once more.
    pub fn copy(&self) -> (r: Number)
        ensures
            r@ == self@,
    {
        proof {
            use_type_invariant(self);
        }
        Number { text: self.text.clone() }
    }
}

impl Clone for Number {
    fn clone(&self) -> (r: Self)
        ensures
            r@ == self@,
    {
        self.copy()
    }
}

/// The literal of an optional number.
pub open spec fn literal_of(n: Option<Number>) -> Option<Seq<char>> {
    match n {
        Some(x) => Some(x@),
        None => None,
    }
}

} // verus!
