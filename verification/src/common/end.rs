//! The end of the text.

use vstd::prelude::*;
use crate::consumable::{Consumable, Outcome, Text};
use crate::error::{Cause, ConsumeError, ConsumeErrorType};

verus! {

/// The end of the text: is consumed where nothing is left, and fails on the first
/// character where something is.
#[derive(Debug, PartialEq, Eq, Clone, Copy)]
pub struct End;

impl Consumable for End {
    type Model = End;

    open spec fn model(&self) -> End {
        *self
    }

    open spec fn spec_consume(source: Text) -> Outcome<End> {
        if source.len() == 0 {
            Ok((End, 0nat))
        } else {
            Err(seq![Cause::UnexpectedToken { index: 0, token: source[0] }])
        }
    }

    proof fn lemma_outcome_fits(source: Text) {
        if source.len() > 0 {
            crate::text::lemma_char_in_seq(source, 0);
        }
    }

    fn consume_from(source: &str) -> (result: Result<(Self, &str), ConsumeError>) {
        proof {
            Self::lemma_outcome_fits(source@);
        }
        match crate::text::first_char(source) {
            None => {
                Ok((End, source))
            },
            Some(token) => Err(
                ConsumeError::new_with(ConsumeErrorType::UnexpectedToken { index: 0, token }),
            ),
        }
    }
}

} // verus!
