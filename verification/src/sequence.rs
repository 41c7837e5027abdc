//! Consuming the steps of a grammar one after the other, and its variants one after the
//! other.
//!
//! A grammar for a value is an ordered list of steps. A step either matches a literal or
//! consumes a value of some type, which a condition may then reject. [`Steps`] holds what a
//! pass over such a list has to keep: what is left of the source and how many characters
//! have been consumed so far. The count is what turns the error of a step, which counts
//! from where the step began, into one that counts from the start of the source.
//!
//! A grammar for an enum has one list of steps for each variant. The variants are tried in
//! the order in which they are written down, each from the start of the source, and the
//! first that succeeds is the result. [`Variants`] holds what has to be kept from one
//! variant to the next: the source, and the causes for which the variants so far failed.
//!
//! ```text
//! let mut variants = Variants::new(source);
//!
//! let mut steps = variants.begin();
//! match first_variant(&mut steps) {
//!     Ok(value) => return Ok((value, steps.finish())),
//!     Err(error) => variants.add_failure(error),
//! }
//!
//! let mut steps = variants.begin();
//! match second_variant(&mut steps) {
//!     Ok(value) => return Ok((value, steps.finish())),
//!     Err(error) => variants.add_failure(error),
//! }
//!
//! Err(variants.into_error())
//! ```

use vstd::prelude::*;
use crate::consumable::Consumable;
use crate::error::{Cause, ConsumeError, ConsumeErrorType};
use crate::literal::SelfConsumable;
use crate::source::ConsumeSource;

verus! {

/// Keeps `item` where `accepted` holds. Where it does not, the value is rejected as
/// invalid at character index `index`.
pub fn accept_if<T>(item: T, accepted: bool, index: usize) -> (result: Result<T, ConsumeError>)
    ensures
        accepted ==> result == Ok::<T, ConsumeError>(item),
        !accepted ==> (result matches Err(error) && error@ == seq![
            Cause::InvalidValue { index: index as nat },
        ]),
{
    if accepted {
        Ok(item)
    } else {
        Err(ConsumeError::new_with(ConsumeErrorType::InvalidValue { index }))
    }
}

/// One pass over the steps of a grammar, from the start of a source.
///
/// A pass always holds what its steps have left of its source: the source without the
/// characters that were consumed, which are never more than the source has.
pub struct Steps<'a> {
    unconsumed: &'a str,
    offset: usize,
    source: Ghost<Seq<char>>,
}

impl<'a> Steps<'a> {
    #[verifier::type_invariant]
    spec fn holds_the_rest(self) -> bool {
        &&& self.offset <= self.source@.len()
        &&& self.source@.len() <= usize::MAX
        &&& self.unconsumed@ == self.source@.skip(self.offset as int)
    }

    /// The source that the pass began on.
    pub closed spec fn source(&self) -> Seq<char> {
        self.source@
    }

    /// The number of characters that the steps so far have consumed.
    pub closed spec fn consumed(&self) -> nat {
        self.offset as nat
    }

    /// What the steps so far have left of the source: the source without the characters
    /// that were consumed.
    pub open spec fn rest(&self) -> Seq<char> {
        self.source().skip(self.consumed() as int)
    }

    /// Begins a pass at the start of `source`, with nothing consumed.
    pub fn new(source: &'a str) -> (steps: Self)
        ensures
            steps.source() == source@,
            steps.consumed() == 0,
            steps.rest() == source@,
    {
        crate::text::count_fits(source);
        assert(source@.skip(0) =~= source@);
        Steps { unconsumed: source, offset: 0, source: Ghost(source@) }
    }

    /// The number of characters that the steps so far have consumed.
    pub fn offset(&self) -> (offset: usize)
        ensures
            offset == self.consumed(),
            self.consumed() <= self.source().len(),
    {
        proof {
            use_type_invariant(self);
        }
        self.offset
    }

    /// What the steps so far have left of the source.
    pub fn unconsumed(&self) -> (rest: &'a str)
        ensures
            rest@ == self.rest(),
            self.consumed() <= self.source().len(),
    {
        proof {
            use_type_invariant(self);
        }
        self.unconsumed
    }

    /// Ends the pass: what is left of the source is what the grammar leaves unconsumed.
    pub fn finish(self) -> (rest: &'a str)
        ensures
            rest@ == self.rest(),
            self.consumed() <= self.source().len(),
    {
        proof {
            use_type_invariant(&self);
        }
        self.unconsumed
    }

    /// A literal step: matches `literal` at the start of what is left. On success the pass
    /// moves on by the characters of the literal. On failure the pass stays where it was, and
    /// the error is that of the match, moved by the number of characters consumed before
    /// the step.
    pub fn literal<L: SelfConsumable>(&mut self, literal: &L) -> (result: Result<(), ConsumeError>)
        ensures
            final(self).source() == old(self).source(),
            final(self).consumed() <= final(self).source().len(),
            match crate::literal::spec_consume_literal(literal.text(), old(self).rest()) {
                Ok(count) => {
                    &&& result is Ok
                    &&& final(self).consumed() == old(self).consumed() + count
                },
                Err(causes) => {
                    &&& result matches Err(error)
                    &&& error@ == crate::error::shift_all(causes, old(self).consumed())
                    &&& old(self).consumed() == 0 ==> error@ == causes
                    &&& final(self).consumed() == old(self).consumed()
                },
            },
    {
        proof {
            use_type_invariant(&*self);
            crate::literal::lemma_literal_fits(literal.text(), self.unconsumed@);
        }
        let mut unconsumed = self.unconsumed;
        match unconsumed.mut_consume_lit(literal) {
            Ok(by) => {
                assert(self.source@.skip(self.offset as int).skip(by as int) =~= self.source@.skip(
                    self.offset + by,
                ));
                *self = Steps { unconsumed, offset: self.offset + by, source: self.source };
                Ok(())
            },
            Err(error) => {
                proof {
                    crate::error::lemma_shift_all_zero(error@);
                }
                Err(error.offset(self.offset))
            },
        }
    }

    /// A typed step: consumes a `T` from the start of what is left. On success the pass
    /// moves on by the characters consumed for the item. On failure the pass stays where it
    /// was, and the error is that of `T`, moved by the number of characters consumed before
    /// the step.
    pub fn typed<T: Consumable>(&mut self) -> (result: Result<T, ConsumeError>)
        ensures
            final(self).source() == old(self).source(),
            final(self).consumed() <= final(self).source().len(),
            match T::spec_consume(old(self).rest()) {
                Ok((value, count)) => {
                    &&& result matches Ok(item)
                    &&& item.model() == value
                    &&& final(self).consumed() == old(self).consumed() + count
                },
                Err(causes) => {
                    &&& result matches Err(error)
                    &&& error@ == crate::error::shift_all(causes, old(self).consumed())
                    &&& old(self).consumed() == 0 ==> error@ == causes
                    &&& final(self).consumed() == old(self).consumed()
                },
            },
    {
        proof {
            use_type_invariant(&*self);
        }
        let mut unconsumed = self.unconsumed;
        match unconsumed.mut_consume_by::<T>() {
            Ok((item, by)) => {
                assert(self.source@.skip(self.offset as int).skip(by as int) =~= self.source@.skip(
                    self.offset + by,
                ));
                *self = Steps { unconsumed, offset: self.offset + by, source: self.source };
                Ok(item)
            },
            Err(error) => {
                proof {
                    crate::error::lemma_shift_all_zero(error@);
                }
                Err(error.offset(self.offset))
            },
        }
    }

    /// A typed step with a condition: consumes a `T` from the start of what is left and
    /// asks `accept` whether the item is allowed. An item that is allowed is kept, and the
    /// pass moves on by the characters consumed for it. An item that is not allowed is
    /// rejected as an invalid value at the index at which the step began, and the pass
    /// stays where it was, as it does where no `T` can be consumed at all.
    pub fn typed_if<T: Consumable, F: Fn(&T) -> bool>(&mut self, accept: F) -> (result: Result<
        T,
        ConsumeError,
    >)
        requires
            forall|item: &T| call_requires(accept, (item,)),
        ensures
            final(self).source() == old(self).source(),
            final(self).consumed() <= final(self).source().len(),
            match T::spec_consume(old(self).rest()) {
                Ok((value, count)) => match result {
                    Ok(item) => {
                        &&& item.model() == value
                        &&& call_ensures(accept, (&item,), true)
                        &&& final(self).consumed() == old(self).consumed() + count
                    },
                    Err(error) => {
                        &&& error@ == seq![Cause::InvalidValue { index: old(self).consumed() }]
                        &&& exists|item: T|
                            item.model() == value && #[trigger] call_ensures(
                                accept,
                                (&item,),
                                false,
                            )
                        &&& final(self).consumed() == old(self).consumed()
                    },
                },
                Err(causes) => {
                    &&& result matches Err(error)
                    &&& error@ == crate::error::shift_all(causes, old(self).consumed())
                    &&& old(self).consumed() == 0 ==> error@ == causes
                    &&& final(self).consumed() == old(self).consumed()
                },
            },
    {
        proof {
            use_type_invariant(&*self);
        }
        let mut unconsumed = self.unconsumed;
        match unconsumed.mut_consume_by::<T>() {
            Ok((item, by)) => {
                let accepted = accept(&item);
                match accept_if(item, accepted, self.offset) {
                    Ok(item) => {
                        assert(self.source@.skip(self.offset as int).skip(by as int)
                            =~= self.source@.skip(self.offset + by));
                        *self = Steps { unconsumed, offset: self.offset + by, source: self.source };
                        Ok(item)
                    },
                    Err(error) => Err(error),
                }
            },
            Err(error) => {
                proof {
                    crate::error::lemma_shift_all_zero(error@);
                }
                Err(error.offset(self.offset))
            },
        }
    }
}

/// The variants of a grammar, which are tried one after the other on one source.
pub struct Variants<'a> {
    source: &'a str,
    error: ConsumeError,
}

impl<'a> Variants<'a> {
    /// The source that every variant is tried on.
    pub closed spec fn source(&self) -> Seq<char> {
        self.source@
    }

    /// The causes for which the variants so far have failed, in the order of the variants.
    pub closed spec fn causes(&self) -> Seq<Cause> {
        self.error@
    }

    /// No variant has been tried on `source` yet.
    pub fn new(source: &'a str) -> (variants: Self)
        ensures
            variants.source() == source@,
            variants.causes() == Seq::<Cause>::empty(),
    {
        Variants { source, error: ConsumeError::new() }
    }

    /// Begins the pass of the next variant. It begins at the start of the source, however
    /// far the variants before it had come.
    pub fn begin(&self) -> (steps: Steps<'a>)
        ensures
            steps.source() == self.source(),
            steps.consumed() == 0,
            steps.rest() == self.source(),
    {
        Steps::new(self.source)
    }

    /// A variant has failed with `error`: its causes are kept behind those of the variants
    /// before it.
    pub fn add_failure(&mut self, error: ConsumeError)
        ensures
            final(self).source() == old(self).source(),
            final(self).causes() == old(self).causes() + error@,
    {
        self.error.add_causes(error);
    }

    /// Every variant has failed: the error of the grammar holds the causes of them all,
    /// in the order of the variants.
    pub fn into_error(self) -> (error: ConsumeError)
        ensures
            error@ == self.causes(),
    {
        self.error
    }
}

} // verus!
