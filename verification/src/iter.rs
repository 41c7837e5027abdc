//! The items of a text, one at a time.

use vstd::prelude::*;
use crate::consumable::Consumable;

verus! {

/// Goes through a source and consumes one `T` after the other, as long as there is one.
#[derive(Debug)]
pub struct ConsumeIter<'a, T> {
    phantom: core::marker::PhantomData<T>,
    unconsumed: &'a str,
}

impl<'a, T> View for ConsumeIter<'a, T> {
    type V = Seq<char>;

    /// What is left of the source.
    closed spec fn view(&self) -> Seq<char> {
        self.unconsumed@
    }
}

impl<'a, T> ConsumeIter<'a, T> {
    /// Begins at the start of `source`.
    pub fn new(source: &'a str) -> (iter: Self)
        ensures
            iter@ == source@,
    {
        ConsumeIter { phantom: core::marker::PhantomData, unconsumed: source }
    }

    /// What is left of the source.
    pub fn unconsumed(&self) -> (rest: &'a str)
        ensures
            rest@ == self@,
    {
        self.unconsumed
    }
}

impl<'a, T: Consumable> ConsumeIter<'a, T> {
    /// Consumes the next item and moves on behind it. Where no item can be consumed there
    /// is none, and nothing is consumed: the failed attempt leaves no trace.
    pub fn next(&mut self) -> (item: Option<T>)
        ensures
            match T::spec_consume(old(self)@) {
                Ok((value, count)) => {
                    &&& item matches Some(found)
                    &&& found.model() == value
                    &&& count <= old(self)@.len()
                    &&& final(self)@ == old(self)@.skip(count as int)
                },
                Err(_) => item is None && final(self)@ == old(self)@,
            },
    {
        match T::consume_from(self.unconsumed) {
            Ok((item, unconsumed)) => {
                self.unconsumed = unconsumed;
                Some(item)
            },
            Err(_) => None,
        }
    }
}

} // verus!
