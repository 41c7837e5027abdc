//! The protocol for what the language itself offers: a character, an optional value, a
//! boxed value, a list and the tuples.

use vstd::prelude::*;
use crate::consumable::{Consumable, Outcome, Text};
use crate::error::{Cause, ConsumeError, ConsumeErrorType};

verus! {

impl Consumable for char {
    type Model = char;

    open spec fn model(&self) -> char {
        *self
    }

    open spec fn spec_consume(source: Text) -> Outcome<char> {
        if source.len() > 0 {
            Ok((source[0], 1nat))
        } else {
            Err(seq![Cause::InsufficientTokens { index: 0 }])
        }
    }

    proof fn lemma_outcome_fits(source: Text) {
    }

    fn consume_from(source: &str) -> (result: Result<(Self, &str), ConsumeError>) {
        if let Some(token) = crate::text::first_char(source) {
            Ok((token, utf8_slice::from(source, 1)))
        } else {
            Err(ConsumeError::new_with(ConsumeErrorType::InsufficientTokens { index: 0 }))
        }
    }
}

impl<T: Consumable> Consumable for Option<T> {
    type Model = Option<T::Model>;

    open spec fn model(&self) -> Option<T::Model> {
        match self {
            Some(item) => Some(item.model()),
            None => None,
        }
    }

    open spec fn spec_consume(source: Text) -> Outcome<Option<T::Model>> {
        match T::spec_consume(source) {
            Ok((value, count)) => Ok((Some(value), count)),
            Err(_) => Ok((None, 0nat)),
        }
    }

    proof fn lemma_outcome_fits(source: Text) {
        T::lemma_outcome_fits(source);
    }

    fn consume_from(source: &str) -> (result: Result<(Self, &str), ConsumeError>) {
        Ok(
            match T::consume_from(source) {
                Err(_) => (None, source),
                Ok((item, unconsumed)) => (Some(item), unconsumed),
            },
        )
    }
}

impl<T: Consumable> Consumable for Box<T> {
    type Model = T::Model;

    open spec fn model(&self) -> T::Model {
        (**self).model()
    }

    open spec fn spec_consume(source: Text) -> Outcome<T::Model> {
        T::spec_consume(source)
    }

    proof fn lemma_outcome_fits(source: Text) {
        T::lemma_outcome_fits(source);
    }

    fn consume_from(source: &str) -> (result: Result<(Self, &str), ConsumeError>) {
        match T::consume_from(source) {
            Ok((item, unconsumed)) => Ok((Box::new(item), unconsumed)),
            Err(error) => Err(error),
        }
    }
}

impl<T: Consumable> Consumable for Vec<T> {
    type Model = Seq<T::Model>;

    open spec fn model(&self) -> Seq<T::Model> {
        self@.map_values(|item: T| item.model())
    }

    open spec fn spec_consume(source: Text) -> Outcome<Seq<T::Model>> {
        Ok(crate::consumable::spec_repeat::<T>(source))
    }

    proof fn lemma_outcome_fits(source: Text) {
        crate::consumable::lemma_repeat_fits::<T>(source);
    }

    /// Consumes items until the next one fails or takes no character. It never fails
    /// itself: where not even one item can be consumed, the list is empty.
    fn consume_from(source: &str) -> (result: Result<(Self, &str), ConsumeError>)
        ensures
            result is Ok,
            Self::spec_consume(source@) is Ok,
    {
        let mut sequence: Vec<T> = Vec::new();
        let mut last_unconsumed = source;
        let ghost mut consumed: nat = 0;
        loop
            invariant
                consumed <= source@.len(),
                last_unconsumed@ == source@.skip(consumed as int),
                crate::consumable::spec_repeat::<T>(source@).0 == sequence.model()
                    + crate::consumable::spec_repeat::<T>(last_unconsumed@).0,
                crate::consumable::spec_repeat::<T>(source@).1 == consumed
                    + crate::consumable::spec_repeat::<T>(last_unconsumed@).1,
            decreases last_unconsumed@.len(),
        {
            proof {
                crate::consumable::lemma_repeat_fits::<T>(source@);
            }
            match T::consume_from(last_unconsumed) {
                Ok((item, unconsumed)) => {
                    let ghost count = T::spec_consume(last_unconsumed@)->Ok_0.1;
                    if crate::text::same_length(last_unconsumed, unconsumed) {
                        return Ok((sequence, last_unconsumed));
                    }
                    proof {
                        consumed = consumed + count;
                    }
                    sequence.push(item);
                    last_unconsumed = unconsumed;
                },
                Err(_) => {
                    return Ok((sequence, last_unconsumed));
                },
            }
        }
    }
}

} // verus!
