//! The step that matches anything.

use vstd::prelude::*;
use crate::consumable::{Consumable, Outcome, Text};
use crate::error::ConsumeError;
use crate::sequence::Steps;

verus! {

/// Matches any text and consumes nothing of it: the last alternative of a choice that is
/// to succeed whatever comes.
#[derive(Debug, PartialEq, Eq, Clone, Copy)]
pub struct CatchAll;

impl Consumable for CatchAll {
    type Model = CatchAll;

    open spec fn model(&self) -> CatchAll {
        *self
    }

    open spec fn spec_consume(source: Text) -> Outcome<CatchAll> {
        Ok((CatchAll, 0nat))
    }

    proof fn lemma_outcome_fits(source: Text) {
    }

    fn consume_from(source: &str) -> (result: Result<(Self, &str), ConsumeError>) {
        proof {
            reveal_strlit("");
        }
        let mut steps = Steps::new(source);
        steps.literal(&"")?;
        Ok((CatchAll, steps.finish()))
    }
}

} // verus!
