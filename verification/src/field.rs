//! A value that is set at most once.

use vstd::prelude::*;

verus! {

/// An optional value with a checked write: `set_or_err` fills an empty field
/// and refuses to touch a filled one.
#[derive(Debug, Clone)]
pub struct Field<T> {
    value: Option<T>,
}

impl<T> View for Field<T> {
    type V = Option<T>;

    closed spec fn view(&self) -> Option<T> {
        self.value
    }
}

impl<T> Field<T> {
    /// The empty field.
    pub fn new() -> (f: Self)
        ensures
            f@ is None,
    {
        Field { value: None }
    }

    /// A reference to the value, if the field holds one.
    pub fn as_ref(&self) -> (r: Option<&T>)
        ensures
            r is Some <==> self@ is Some,
            r matches Some(v) ==> self@ == Some(*v),
    {
        self.value.as_ref()
    }

    /// A clone of the value, or `default` for an empty field.
    pub fn unwrap_or(&self, default: T) -> (r: T) where T: Clone
        ensures
            self@ is None ==> r == default,
            self@ matches Some(v) ==> cloned(v, r),
    {
        match &self.value {
            Some(v) => v.clone(),
            None => default,
        }
    }

    /// A clone of the value of a field that holds one.
    pub fn unwrap(&self) -> (r: T) where T: Clone
        requires
            self@ is Some,
        ensures
            cloned(self@->0, r),
    {
        let value: Option<T> = self.value.clone();
        value.unwrap()
    }

    /// Overwrites the field, filled or not.
    pub fn set(&mut self, val: Option<T>)
        ensures
            final(self)@ == val,
    {
        self.value = val
    }

    /// A clone of what the field holds.
    pub fn get(&self) -> (r: Option<T>) where T: Clone
        ensures
            r is Some <==> self@ is Some,
            self@ matches Some(v) ==> cloned(v, r->0),
    {
        match &self.value {
            Some(v) => Some(v.clone()),
            None => None,
        }
    }

    /// Writes `val` into an empty field. A filled field is left as it is, and
    /// `err` comes back.
    pub fn set_or_err<E>(&mut self, val: Option<T>, err: E) -> (r: Result<(), E>)
        ensures
            old(self)@ is None ==> r is Ok && final(self)@ == val,
            old(self)@ is Some ==> r == Err::<(), E>(err) && final(self)@ == old(self)@,
    {
        if self.value.is_none() {
            self.value = val;
            Ok(())
        } else {
            Err(err)
        }
    }

    /// Whether the field holds a value.
    pub fn is_some(&self) -> (r: bool)
        ensures
            r == (self@ is Some),
    {
        self.value.is_some()
    }

    /// Whether the field is empty.
    pub fn is_none(&self) -> (r: bool)
        ensures
            r == (self@ is None),
    {
        self.value.is_none()
    }
}

} // verus!
