use manger::chars::alpha::A;
use manger::common::Whitespace;
use manger::consumable::{Outcome, Text};
use manger::sequence::Steps;
use manger::{Consumable, ConsumeError};

// The grammars below are written by hand, step by step. The items of the protocol that only
// Verus reads end in `unreachable!()`: nothing calls them when the tests run.

#[derive(Debug, PartialEq)]
struct Trim<T: Consumable>(T);

impl<T: Consumable> Consumable for Trim<T> {
    type Model = Self;

    fn model(&self) -> Self {
        unreachable!()
    }

    fn spec_consume(_: Text) -> Outcome<Self> {
        unreachable!()
    }

    fn lemma_outcome_fits(_: Text) {
        unreachable!()
    }

    fn consume_from(source: &str) -> Result<(Self, &str), ConsumeError> {
        let mut steps = Steps::new(source);
        steps.typed::<Vec<Whitespace>>()?;
        let value = steps.typed::<T>()?;
        steps.typed::<Vec<Whitespace>>()?;
        Ok((Trim(value), steps.finish()))
    }
}

#[test]
fn generics_test_syntax() {
    assert_eq!(<Trim<A>>::consume_from("\t A  \n").unwrap(), (Trim(A::Uppercase), ""));
}

#[test]
fn trimmed_of_nothing() {
    assert_eq!(<Trim<A>>::consume_from("a!").unwrap(), (Trim(A::Lowercase), "!"));
    assert_eq!(<Trim<u8>>::consume_from(" 7 8").unwrap(), (Trim(7), "8"));
}
