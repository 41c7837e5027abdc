use manger::consumable::{Outcome, Text};
use manger::sequence::{Steps, Variants};
use manger::{Consumable, ConsumeError, ConsumeErrorType};

// The grammars below are written by hand, step by step. The items of the protocol that only
// Verus reads end in `unreachable!()`: nothing calls them when the tests run.

#[derive(PartialEq, Debug)]
enum XYZ {
    X,
    Y,
    Z,
}

fn letter(mut steps: Steps<'_>, token: char, value: XYZ) -> Result<(XYZ, &str), ConsumeError> {
    steps.literal(&token)?;
    Ok((value, steps.finish()))
}

impl Consumable for XYZ {
    type Model = Self;

    fn model(&self) -> Self {
        unreachable!()
    }

    fn spec_consume(_: Text) -> Outcome<Self> {
        unreachable!()
    }

    fn lemma_outcome_fits(_: Text) {
        unreachable!()
    }

    fn consume_from(source: &str) -> Result<(Self, &str), ConsumeError> {
        let mut variants = Variants::new(source);
        match letter(variants.begin(), 'x', XYZ::X) {
            Ok(found) => return Ok(found),
            Err(error) => variants.add_failure(error),
        }
        match letter(variants.begin(), 'y', XYZ::Y) {
            Ok(found) => return Ok(found),
            Err(error) => variants.add_failure(error),
        }
        match letter(variants.begin(), 'z', XYZ::Z) {
            Ok(found) => return Ok(found),
            Err(error) => variants.add_failure(error),
        }
        Err(variants.into_error())
    }
}

#[derive(PartialEq, Debug)]
enum ABC {
    A,
    B,
    C,
}

impl Consumable for ABC {
    type Model = Self;

    fn model(&self) -> Self {
        unreachable!()
    }

    fn spec_consume(_: Text) -> Outcome<Self> {
        unreachable!()
    }

    fn lemma_outcome_fits(_: Text) {
        unreachable!()
    }

    fn consume_from(source: &str) -> Result<(Self, &str), ConsumeError> {
        let mut variants = Variants::new(source);
        for (token, value) in [('a', ABC::A), ('b', ABC::B), ('c', ABC::C)] {
            let mut steps = variants.begin();
            match steps.literal(&token) {
                Ok(()) => return Ok((value, steps.finish())),
                Err(error) => variants.add_failure(error),
            }
        }
        Err(variants.into_error())
    }
}

#[test]
fn enums_test_syntax() {
    assert_eq!(XYZ::consume_from("x").unwrap(), (XYZ::X, ""));
    assert_eq!(XYZ::consume_from("y").unwrap(), (XYZ::Y, ""));
    assert_eq!(XYZ::consume_from("z").unwrap(), (XYZ::Z, ""));
}

#[test]
fn no_variant_matches_and_each_says_why() {
    let unexpected = ConsumeErrorType::UnexpectedToken { index: 0, token: 'x' };
    assert_eq!(
        ABC::consume_from("x"),
        Err(ConsumeError::new_from(vec![unexpected, unexpected, unexpected]))
    );
    assert_eq!(ABC::consume_from("x").unwrap_err().into_causes().len(), 3);
}

#[test]
fn the_first_variant_that_matches_wins() {
    assert_eq!(XYZ::consume_from("yz"), Ok((XYZ::Y, "z")));
    assert_eq!(ABC::consume_from("cab"), Ok((ABC::C, "ab")));
}

#[test]
fn an_empty_source_fails_every_variant() {
    let missing = ConsumeErrorType::InsufficientTokens { index: 0 };
    assert_eq!(
        XYZ::consume_from(""),
        Err(ConsumeError::new_from(vec![missing, missing, missing]))
    );
}
