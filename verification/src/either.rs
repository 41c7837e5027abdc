//! One of two: the first alternative that can be consumed.

use vstd::prelude::*;
use crate::consumable::{Consumable, Outcome, Text};
use crate::error::ConsumeError;

verus! {

/// A value of one of two types.
#[derive(Debug, PartialEq, Eq)]
pub enum Either<L, R> {
    /// A value of the first type.
    Left(L),
    /// A value of the second type.
    Right(R),
}

impl<L, R> Either<L, R> {
    /// Whether this is a value of the first type.
    pub fn is_left(&self) -> (left: bool)
        ensures
            left == (*self is Left),
    {
        match self {
            Either::Left(_) => true,
            Either::Right(_) => false,
        }
    }

    /// Whether this is a value of the second type.
    pub fn is_right(&self) -> (right: bool)
        ensures
            right == (*self is Right),
    {
        match self {
            Either::Left(_) => false,
            Either::Right(_) => true,
        }
    }
}

/// What trying one alternative and, where it fails, the other on the same text comes to:
/// the success of the first that succeeds, or the causes of both failures, those of the
/// first alternative first.
pub open spec fn spec_either<X, Y>(left: Outcome<X>, right: Outcome<Y>) -> Outcome<Either<X, Y>> {
    match left {
        Ok((value, count)) => Ok((Either::Left(value), count)),
        Err(left_causes) => match right {
            Ok((value, count)) => Ok((Either::Right(value), count)),
            Err(right_causes) => Err(left_causes + right_causes),
        },
    }
}

impl<L: Consumable, R: Consumable> Consumable for Either<L, R> {
    type Model = Either<L::Model, R::Model>;

    open spec fn model(&self) -> Either<L::Model, R::Model> {
        match self {
            Either::Left(item) => Either::Left(item.model()),
            Either::Right(item) => Either::Right(item.model()),
        }
    }

    open spec fn spec_consume(source: Text) -> Outcome<Either<L::Model, R::Model>> {
        spec_either(L::spec_consume(source), R::spec_consume(source))
    }

    proof fn lemma_outcome_fits(source: Text) {
        L::lemma_outcome_fits(source);
        R::lemma_outcome_fits(source);
    }

    fn consume_from(source: &str) -> (result: Result<(Self, &str), ConsumeError>) {
        proof {
            Self::lemma_outcome_fits(source@);
        }
        let left = L::consume_from(source);
        match left {
            Ok((left_item, unconsumed)) => Ok((Either::Left(left_item), unconsumed)),
            Err(left_err) => {
                let right = R::consume_from(source);
                match right {
                    Ok((right_item, unconsumed)) => Ok((Either::Right(right_item), unconsumed)),
                    Err(right_err) => {
                        let mut errors = ConsumeError::new();
                        errors.add_causes(left_err);
                        errors.add_causes(right_err);
                        Err(errors)
                    },
                }
            },
        }
    }
}

} // verus!
