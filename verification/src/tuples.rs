//! Tuples: one item after the other.
//!
//! A tuple of two to ten types is consumed slot by slot. Each slot begins where the one
//! before it ended. The first slot that fails ends the consumption: its error, moved by
//! the characters that the slots before it consumed, is the error of the tuple, and the
//! slots after it are not tried.

use vstd::prelude::*;
use crate::consumable::{Consumable, Outcome, Text};
use crate::error::ConsumeError;
use crate::sequence::Steps;

verus! {

impl<A: Consumable, B: Consumable> Consumable for (A, B) {
    type Model = (A::Model, B::Model);

    open spec fn model(&self) -> (A::Model, B::Model) {
        (self.0.model(), self.1.model())
    }

    open spec fn spec_consume(source: Text) -> Outcome<(A::Model, B::Model)> {
        crate::consumable::spec_then::<A::Model, B>(A::spec_consume(source), source)
    }

    proof fn lemma_outcome_fits(source: Text) {
        A::lemma_outcome_fits(source);
        crate::consumable::lemma_then_fits::<A::Model, B>(A::spec_consume(source), source);
    }

    fn consume_from(source: &str) -> (result: Result<(Self, &str), ConsumeError>) {
        proof {
            Self::lemma_outcome_fits(source@);
        }
        let mut steps = Steps::new(source);
        let a = steps.typed::<A>()?;
        let b = steps.typed::<B>()?;
        Ok(((a, b), steps.finish()))
    }
}

impl<A: Consumable, B: Consumable, C: Consumable> Consumable for (A, B, C) {
    type Model = (A::Model, B::Model, C::Model);

    open spec fn model(&self) -> (A::Model, B::Model, C::Model) {
        (self.0.model(), self.1.model(), self.2.model())
    }

    open spec fn spec_consume(source: Text) -> Outcome<(A::Model, B::Model, C::Model)> {
        match crate::consumable::spec_then::<(A::Model, B::Model), C>(
            <(A, B)>::spec_consume(source),
            source,
        ) {
            Ok((((a, b), c), count)) => Ok(((a, b, c), count)),
            Err(causes) => Err(causes),
        }
    }

    proof fn lemma_outcome_fits(source: Text) {
        <(A, B)>::lemma_outcome_fits(source);
        crate::consumable::lemma_then_fits::<(A::Model, B::Model), C>(
            <(A, B)>::spec_consume(source),
            source,
        );
    }

    fn consume_from(source: &str) -> (result: Result<(Self, &str), ConsumeError>) {
        proof {
            Self::lemma_outcome_fits(source@);
        }
        let mut steps = Steps::new(source);
        let a = steps.typed::<A>()?;
        let b = steps.typed::<B>()?;
        let c = steps.typed::<C>()?;
        Ok(((a, b, c), steps.finish()))
    }
}

impl<A: Consumable, B: Consumable, C: Consumable, D: Consumable> Consumable for (A, B, C, D) {
    type Model = (A::Model, B::Model, C::Model, D::Model);

    open spec fn model(&self) -> (A::Model, B::Model, C::Model, D::Model) {
        (self.0.model(), self.1.model(), self.2.model(), self.3.model())
    }

    open spec fn spec_consume(source: Text) -> Outcome<(A::Model, B::Model, C::Model, D::Model)> {
        match crate::consumable::spec_then::<(A::Model, B::Model, C::Model), D>(
            <(A, B, C)>::spec_consume(source),
            source,
        ) {
            Ok((((a, b, c), d), count)) => Ok(((a, b, c, d), count)),
            Err(causes) => Err(causes),
        }
    }

    proof fn lemma_outcome_fits(source: Text) {
        <(A, B, C)>::lemma_outcome_fits(source);
        crate::consumable::lemma_then_fits::<(A::Model, B::Model, C::Model), D>(
            <(A, B, C)>::spec_consume(source),
            source,
        );
    }

    fn consume_from(source: &str) -> (result: Result<(Self, &str), ConsumeError>) {
        proof {
            Self::lemma_outcome_fits(source@);
        }
        let mut steps = Steps::new(source);
        let a = steps.typed::<A>()?;
        let b = steps.typed::<B>()?;
        let c = steps.typed::<C>()?;
        let d = steps.typed::<D>()?;
        Ok(((a, b, c, d), steps.finish()))
    }
}

impl<A: Consumable, B: Consumable, C: Consumable, D: Consumable, E: Consumable> Consumable for (A, B, C, D, E) {
    type Model = (A::Model, B::Model, C::Model, D::Model, E::Model);

    open spec fn model(&self) -> (A::Model, B::Model, C::Model, D::Model, E::Model) {
        (self.0.model(), self.1.model(), self.2.model(), self.3.model(), self.4.model())
    }

    open spec fn spec_consume(source: Text) -> Outcome<(A::Model, B::Model, C::Model, D::Model, E::Model)> {
        match crate::consumable::spec_then::<(A::Model, B::Model, C::Model, D::Model), E>(
            <(A, B, C, D)>::spec_consume(source),
            source,
        ) {
            Ok((((a, b, c, d), e), count)) => Ok(((a, b, c, d, e), count)),
            Err(causes) => Err(causes),
        }
    }

    proof fn lemma_outcome_fits(source: Text) {
        <(A, B, C, D)>::lemma_outcome_fits(source);
        crate::consumable::lemma_then_fits::<(A::Model, B::Model, C::Model, D::Model), E>(
            <(A, B, C, D)>::spec_consume(source),
            source,
        );
    }

    fn consume_from(source: &str) -> (result: Result<(Self, &str), ConsumeError>) {
        proof {
            Self::lemma_outcome_fits(source@);
        }
        let mut steps = Steps::new(source);
        let a = steps.typed::<A>()?;
        let b = steps.typed::<B>()?;
        let c = steps.typed::<C>()?;
        let d = steps.typed::<D>()?;
        let e = steps.typed::<E>()?;
        Ok(((a, b, c, d, e), steps.finish()))
    }
}

impl<A: Consumable, B: Consumable, C: Consumable, D: Consumable, E: Consumable, F: Consumable> Consumable for (A, B, C, D, E, F) {
    type Model = (A::Model, B::Model, C::Model, D::Model, E::Model, F::Model);

    open spec fn model(&self) -> (A::Model, B::Model, C::Model, D::Model, E::Model, F::Model) {
        (self.0.model(), self.1.model(), self.2.model(), self.3.model(), self.4.model(), self.5.model())
    }

    open spec fn spec_consume(source: Text) -> Outcome<(A::Model, B::Model, C::Model, D::Model, E::Model, F::Model)> {
        match crate::consumable::spec_then::<(A::Model, B::Model, C::Model, D::Model, E::Model), F>(
            <(A, B, C, D, E)>::spec_consume(source),
            source,
        ) {
            Ok((((a, b, c, d, e), f), count)) => Ok(((a, b, c, d, e, f), count)),
            Err(causes) => Err(causes),
        }
    }

    proof fn lemma_outcome_fits(source: Text) {
        <(A, B, C, D, E)>::lemma_outcome_fits(source);
        crate::consumable::lemma_then_fits::<(A::Model, B::Model, C::Model, D::Model, E::Model), F>(
            <(A, B, C, D, E)>::spec_consume(source),
            source,
        );
    }

    fn consume_from(source: &str) -> (result: Result<(Self, &str), ConsumeError>) {
        proof {
            Self::lemma_outcome_fits(source@);
        }
        let mut steps = Steps::new(source);
        let a = steps.typed::<A>()?;
        let b = steps.typed::<B>()?;
        let c = steps.typed::<C>()?;
        let d = steps.typed::<D>()?;
        let e = steps.typed::<E>()?;
        let f = steps.typed::<F>()?;
        Ok(((a, b, c, d, e, f), steps.finish()))
    }
}

impl<A: Consumable, B: Consumable, C: Consumable, D: Consumable, E: Consumable, F: Consumable, G: Consumable> Consumable for (A, B, C, D, E, F, G) {
    type Model = (A::Model, B::Model, C::Model, D::Model, E::Model, F::Model, G::Model);

    open spec fn model(&self) -> (A::Model, B::Model, C::Model, D::Model, E::Model, F::Model, G::Model) {
        (self.0.model(), self.1.model(), self.2.model(), self.3.model(), self.4.model(), self.5.model(), self.6.model())
    }

    open spec fn spec_consume(source: Text) -> Outcome<(A::Model, B::Model, C::Model, D::Model, E::Model, F::Model, G::Model)> {
        match crate::consumable::spec_then::<(A::Model, B::Model, C::Model, D::Model, E::Model, F::Model), G>(
            <(A, B, C, D, E, F)>::spec_consume(source),
            source,
        ) {
            Ok((((a, b, c, d, e, f), g), count)) => Ok(((a, b, c, d, e, f, g), count)),
            Err(causes) => Err(causes),
        }
    }

    proof fn lemma_outcome_fits(source: Text) {
        <(A, B, C, D, E, F)>::lemma_outcome_fits(source);
        crate::consumable::lemma_then_fits::<(A::Model, B::Model, C::Model, D::Model, E::Model, F::Model), G>(
            <(A, B, C, D, E, F)>::spec_consume(source),
            source,
        );
    }

    fn consume_from(source: &str) -> (result: Result<(Self, &str), ConsumeError>) {
        proof {
            Self::lemma_outcome_fits(source@);
        }
        let mut steps = Steps::new(source);
        let a = steps.typed::<A>()?;
        let b = steps.typed::<B>()?;
        let c = steps.typed::<C>()?;
        let d = steps.typed::<D>()?;
        let e = steps.typed::<E>()?;
        let f = steps.typed::<F>()?;
        let g = steps.typed::<G>()?;
        Ok(((a, b, c, d, e, f, g), steps.finish()))
    }
}

impl<A: Consumable, B: Consumable, C: Consumable, D: Consumable, E: Consumable, F: Consumable, G: Consumable, H: Consumable> Consumable for (A, B, C, D, E, F, G, H) {
    type Model = (A::Model, B::Model, C::Model, D::Model, E::Model, F::Model, G::Model, H::Model);

    open spec fn model(&self) -> (A::Model, B::Model, C::Model, D::Model, E::Model, F::Model, G::Model, H::Model) {
        (self.0.model(), self.1.model(), self.2.model(), self.3.model(), self.4.model(), self.5.model(), self.6.model(), self.7.model())
    }

    open spec fn spec_consume(source: Text) -> Outcome<(A::Model, B::Model, C::Model, D::Model, E::Model, F::Model, G::Model, H::Model)> {
        match crate::consumable::spec_then::<(A::Model, B::Model, C::Model, D::Model, E::Model, F::Model, G::Model), H>(
            <(A, B, C, D, E, F, G)>::spec_consume(source),
            source,
        ) {
            Ok((((a, b, c, d, e, f, g), h), count)) => Ok(((a, b, c, d, e, f, g, h), count)),
            Err(causes) => Err(causes),
        }
    }

    proof fn lemma_outcome_fits(source: Text) {
        <(A, B, C, D, E, F, G)>::lemma_outcome_fits(source);
        crate::consumable::lemma_then_fits::<(A::Model, B::Model, C::Model, D::Model, E::Model, F::Model, G::Model), H>(
            <(A, B, C, D, E, F, G)>::spec_consume(source),
            source,
        );
    }

    fn consume_from(source: &str) -> (result: Result<(Self, &str), ConsumeError>) {
        proof {
            Self::lemma_outcome_fits(source@);
        }
        let mut steps = Steps::new(source);
        let a = steps.typed::<A>()?;
        let b = steps.typed::<B>()?;
        let c = steps.typed::<C>()?;
        let d = steps.typed::<D>()?;
        let e = steps.typed::<E>()?;
        let f = steps.typed::<F>()?;
        let g = steps.typed::<G>()?;
        let h = steps.typed::<H>()?;
        Ok(((a, b, c, d, e, f, g, h), steps.finish()))
    }
}

impl<A: Consumable, B: Consumable, C: Consumable, D: Consumable, E: Consumable, F: Consumable, G: Consumable, H: Consumable, I: Consumable> Consumable for (A, B, C, D, E, F, G, H, I) {
    type Model = (A::Model, B::Model, C::Model, D::Model, E::Model, F::Model, G::Model, H::Model, I::Model);

    open spec fn model(&self) -> (A::Model, B::Model, C::Model, D::Model, E::Model, F::Model, G::Model, H::Model, I::Model) {
        (self.0.model(), self.1.model(), self.2.model(), self.3.model(), self.4.model(), self.5.model(), self.6.model(), self.7.model(), self.8.model())
    }

    open spec fn spec_consume(source: Text) -> Outcome<(A::Model, B::Model, C::Model, D::Model, E::Model, F::Model, G::Model, H::Model, I::Model)> {
        match crate::consumable::spec_then::<(A::Model, B::Model, C::Model, D::Model, E::Model, F::Model, G::Model, H::Model), I>(
            <(A, B, C, D, E, F, G, H)>::spec_consume(source),
            source,
        ) {
            Ok((((a, b, c, d, e, f, g, h), i), count)) => Ok(((a, b, c, d, e, f, g, h, i), count)),
            Err(causes) => Err(causes),
        }
    }

    proof fn lemma_outcome_fits(source: Text) {
        <(A, B, C, D, E, F, G, H)>::lemma_outcome_fits(source);
        crate::consumable::lemma_then_fits::<(A::Model, B::Model, C::Model, D::Model, E::Model, F::Model, G::Model, H::Model), I>(
            <(A, B, C, D, E, F, G, H)>::spec_consume(source),
            source,
        );
    }

    fn consume_from(source: &str) -> (result: Result<(Self, &str), ConsumeError>) {
        proof {
            Self::lemma_outcome_fits(source@);
        }
        let mut steps = Steps::new(source);
        let a = steps.typed::<A>()?;
        let b = steps.typed::<B>()?;
        let c = steps.typed::<C>()?;
        let d = steps.typed::<D>()?;
        let e = steps.typed::<E>()?;
        let f = steps.typed::<F>()?;
        let g = steps.typed::<G>()?;
        let h = steps.typed::<H>()?;
        let i = steps.typed::<I>()?;
        Ok(((a, b, c, d, e, f, g, h, i), steps.finish()))
    }
}

impl<A: Consumable, B: Consumable, C: Consumable, D: Consumable, E: Consumable, F: Consumable, G: Consumable, H: Consumable, I: Consumable, J: Consumable> Consumable for (A, B, C, D, E, F, G, H, I, J) {
    type Model = (A::Model, B::Model, C::Model, D::Model, E::Model, F::Model, G::Model, H::Model, I::Model, J::Model);

    open spec fn model(&self) -> (A::Model, B::Model, C::Model, D::Model, E::Model, F::Model, G::Model, H::Model, I::Model, J::Model) {
        (self.0.model(), self.1.model(), self.2.model(), self.3.model(), self.4.model(), self.5.model(), self.6.model(), self.7.model(), self.8.model(), self.9.model())
    }

    open spec fn spec_consume(source: Text) -> Outcome<(A::Model, B::Model, C::Model, D::Model, E::Model, F::Model, G::Model, H::Model, I::Model, J::Model)> {
        match crate::consumable::spec_then::<(A::Model, B::Model, C::Model, D::Model, E::Model, F::Model, G::Model, H::Model, I::Model), J>(
            <(A, B, C, D, E, F, G, H, I)>::spec_consume(source),
            source,
        ) {
            Ok((((a, b, c, d, e, f, g, h, i), j), count)) => Ok(((a, b, c, d, e, f, g, h, i, j), count)),
            Err(causes) => Err(causes),
        }
    }

    proof fn lemma_outcome_fits(source: Text) {
        <(A, B, C, D, E, F, G, H, I)>::lemma_outcome_fits(source);
        crate::consumable::lemma_then_fits::<(A::Model, B::Model, C::Model, D::Model, E::Model, F::Model, G::Model, H::Model, I::Model), J>(
            <(A, B, C, D, E, F, G, H, I)>::spec_consume(source),
            source,
        );
    }

    fn consume_from(source: &str) -> (result: Result<(Self, &str), ConsumeError>) {
        proof {
            Self::lemma_outcome_fits(source@);
        }
        let mut steps = Steps::new(source);
        let a = steps.typed::<A>()?;
        let b = steps.typed::<B>()?;
        let c = steps.typed::<C>()?;
        let d = steps.typed::<D>()?;
        let e = steps.typed::<E>()?;
        let f = steps.typed::<F>()?;
        let g = steps.typed::<G>()?;
        let h = steps.typed::<H>()?;
        let i = steps.typed::<I>()?;
        let j = steps.typed::<J>()?;
        Ok(((a, b, c, d, e, f, g, h, i, j), steps.finish()))
    }
}

} // verus!
