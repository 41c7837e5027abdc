//! Consuming written from the side of the text: `source.consume::<T>()`.

use vstd::prelude::*;
use crate::consumable::Consumable;
use crate::error::ConsumeError;
use crate::literal::SelfConsumable;

verus! {

/// Shorthands for consuming from a text. Implemented for `&str` only.
///
/// The methods whose names start with `mut_` advance the text itself to what is left
/// unconsumed; on failure they leave it as it was.
pub trait ConsumeSource: Sized + View<V = Seq<char>> {
    /// Consumes the literal `literal` from the start of `self` and returns the rest.
    fn consume_lit<T: SelfConsumable>(self, literal: &T) -> (result: Result<Self, ConsumeError>)
        ensures
            match crate::literal::spec_consume_literal(literal.text(), self@) {
                Ok(count) => result matches Ok(rest) && count <= self@.len() && rest@
                    == self@.skip(count as int),
                Err(causes) => result matches Err(error) && error@ == causes,
            },
    ;

    /// Consumes a `T` from the start of `self` and returns it with the rest.
    fn consume<T: Consumable>(self) -> (result: Result<(T, Self), ConsumeError>)
        ensures
            match T::spec_consume(self@) {
                Ok((value, count)) => result matches Ok((item, rest)) && item.model() == value
                    && count <= self@.len() && rest@ == self@.skip(count as int),
                Err(causes) => result matches Err(error) && error@ == causes,
            },
            crate::consumable::outcome_fits(T::spec_consume(self@), self@.len()),
    ;

    /// Consumes the literal `literal` from the start of `self`, leaves in `self` what is
    /// unconsumed and returns the number of characters that were consumed.
    fn mut_consume_lit<T: SelfConsumable>(&mut self, literal: &T) -> (result: Result<
        usize,
        ConsumeError,
    >)
        ensures
            match crate::literal::spec_consume_literal(literal.text(), old(self)@) {
                Ok(count) => result == Ok::<usize, ConsumeError>(count as usize) && count <= old(
                    self,
                )@.len() && final(self)@ == old(self)@.skip(count as int),
                Err(causes) => result matches Err(error) && error@ == causes && final(self)@
                    == old(self)@,
            },
    ;

    /// Consumes a `T` from the start of `self`, leaves in `self` what is unconsumed and
    /// returns the item.
    fn mut_consume<T: Consumable>(&mut self) -> (result: Result<T, ConsumeError>)
        ensures
            match T::spec_consume(old(self)@) {
                Ok((value, count)) => result matches Ok(item) && item.model() == value && count
                    <= old(self)@.len() && final(self)@ == old(self)@.skip(count as int),
                Err(causes) => result matches Err(error) && error@ == causes && final(self)@
                    == old(self)@,
            },
            crate::consumable::outcome_fits(T::spec_consume(old(self)@), old(self)@.len()),
    ;

    /// Consumes a `T` from the start of `self`, leaves in `self` what is unconsumed and
    /// returns the item with the number of characters that were consumed for it.
    fn mut_consume_by<T: Consumable>(&mut self) -> (result: Result<(T, usize), ConsumeError>)
        ensures
            match T::spec_consume(old(self)@) {
                Ok((value, count)) => result matches Ok((item, by)) && item.model() == value
                    && by == count && count <= old(self)@.len() && final(self)@ == old(
                    self,
                )@.skip(count as int),
                Err(causes) => result matches Err(error) && error@ == causes && final(self)@
                    == old(self)@,
            },
            crate::consumable::outcome_fits(T::spec_consume(old(self)@), old(self)@.len()),
    ;
}

impl<'s> ConsumeSource for &'s str {
    fn consume_lit<T: SelfConsumable>(self, literal: &T) -> (result: Result<Self, ConsumeError>) {
        T::consume_item(self, literal)
    }

    fn consume<T: Consumable>(self) -> (result: Result<(T, Self), ConsumeError>) {
        T::consume_from(self)
    }

    fn mut_consume_lit<T: SelfConsumable>(&mut self, literal: &T) -> (result: Result<
        usize,
        ConsumeError,
    >) {
        let length = utf8_slice::len(*self);
        let unconsumed = (*self).consume_lit(literal)?;
        *self = unconsumed;
        Ok(length - utf8_slice::len(*self))
    }

    fn mut_consume<T: Consumable>(&mut self) -> (result: Result<T, ConsumeError>) {
        let (item, unconsumed) = (*self).consume::<T>()?;
        *self = unconsumed;
        Ok(item)
    }

    fn mut_consume_by<T: Consumable>(&mut self) -> (result: Result<(T, usize), ConsumeError>) {
        let length = utf8_slice::len(*self);
        let (item, unconsumed) = (*self).consume::<T>()?;
        *self = unconsumed;
        Ok((item, length - utf8_slice::len(*self)))
    }
}

} // verus!
