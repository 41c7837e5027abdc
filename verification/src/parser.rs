//! A whole text as one value.

use vstd::prelude::*;
use crate::common::End;
use crate::consumable::Consumable;
use crate::error::ConsumeError;

verus! {

/// A `T` that was consumed from a whole text, with nothing left over: what
/// `text.parse::<Parser<T>>()` gives.
#[derive(Debug)]
pub struct Parser<T: Consumable> {
    value: T,
}

impl<T: Consumable> View for Parser<T> {
    type V = T;

    /// The value that was parsed.
    closed spec fn view(&self) -> T {
        self.value
    }
}

impl<T: Consumable> Parser<T> {
    /// The parsed value, by reference.
    pub fn get_ref(&self) -> (value: &T)
        ensures
            *value == self@,
    {
        &self.value
    }

    /// The parsed value, to be changed in place.
    pub fn get_mut(&mut self) -> (value: &mut T)
        ensures
            *value == old(self)@,
            final(self)@ == *final(value),
    {
        &mut self.value
    }

    /// Gives up the parser for the parsed value.
    pub fn unwrap(self) -> (value: T)
        ensures
            value == self@,
    {
        self.value
    }
}

impl<T: Consumable> std::str::FromStr for Parser<T> {
    type Err = ConsumeError;

    /// What `text.parse::<Parser<T>>()` calls: consumes a `T` from `s` and then the end
    /// of `s`. Fails as `T` does, or with the first character that `T` leaves unconsumed
    /// as an unexpected token.
    fn from_str(s: &str) -> (result: Result<Self, ConsumeError>)
        ensures
            match <(T, End)>::spec_consume(s@) {
                Ok(((value, _), _)) => result matches Ok(parser) && parser@.model() == value,
                Err(causes) => result matches Err(error) && error@ == causes,
            },
    {
        match <(T, End)>::consume_from(s) {
            Ok(((value, _), _)) => Ok(Parser { value }),
            Err(error) => Err(error),
        }
    }
}

} // verus!
