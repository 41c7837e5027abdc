//! One character of white space.

use vstd::prelude::*;
use crate::consumable::{Consumable, Outcome, Text};
use crate::error::{Cause, ConsumeError};
use crate::sequence::Steps;

verus! {

/// Whether `c` is white space as Unicode defines it: whether it has the property
/// `White_Space`.
pub uninterp spec fn is_whitespace(c: char) -> bool;

/// `char::is_whitespace` says whether the character has Unicode's property `White_Space`.
pub assume_specification[ char::is_whitespace ](c: char) -> (white: bool)
    ensures
        white == is_whitespace(c),
;

/// One character of white space, whichever it is.
///
/// A character that is no white space is consumed as a character and then rejected: the
/// failure is an invalid value, not an unexpected token.
#[derive(Debug, PartialEq, Eq, Clone, Copy)]
pub struct Whitespace;

impl Consumable for Whitespace {
    type Model = Whitespace;

    open spec fn model(&self) -> Whitespace {
        *self
    }

    open spec fn spec_consume(source: Text) -> Outcome<Whitespace> {
        if source.len() == 0 {
            Err(seq![Cause::InsufficientTokens { index: 0 }])
        } else if is_whitespace(source[0]) {
            Ok((Whitespace, 1nat))
        } else {
            Err(seq![Cause::InvalidValue { index: 0 }])
        }
    }

    proof fn lemma_outcome_fits(source: Text) {
    }

    fn consume_from(source: &str) -> (result: Result<(Self, &str), ConsumeError>) {
        let mut steps = Steps::new(source);
        let accept = |token: &char| -> (white: bool)
            ensures
                white == is_whitespace(*token),
            { token.is_whitespace() };
        steps.typed_if::<char, _>(accept)?;
        Ok((Whitespace, steps.finish()))
    }
}

} // verus!
