use manger::consumable::{Outcome, Text};
use manger::sequence::Steps;
use manger::{Consumable, ConsumeError, ConsumeErrorType};

// The grammars below are written by hand, step by step. The items of the protocol that only
// Verus reads end in `unreachable!()`: nothing calls them when the tests run.

#[derive(Debug, PartialEq)]
struct EncasedInteger(u32);

impl Consumable for EncasedInteger {
    type Model = Self;

    fn model(&self) -> Self {
        unreachable!()
    }

    fn spec_consume(_: Text) -> Outcome<Self> {
        unreachable!()
    }

    fn lemma_outcome_fits(_: Text) {
        unreachable!()
    }

    fn consume_from(source: &str) -> Result<(Self, &str), ConsumeError> {
        let mut steps = Steps::new(source);
        steps.literal(&'[')?;
        let value = steps.typed::<u32>()?;
        steps.literal(&']')?;
        Ok((EncasedInteger(value), steps.finish()))
    }
}

#[derive(Debug, PartialEq)]
struct Signed(i32);

impl Consumable for Signed {
    type Model = Self;

    fn model(&self) -> Self {
        unreachable!()
    }

    fn spec_consume(_: Text) -> Outcome<Self> {
        unreachable!()
    }

    fn lemma_outcome_fits(_: Text) {
        unreachable!()
    }

    fn consume_from(source: &str) -> Result<(Self, &str), ConsumeError> {
        let mut steps = Steps::new(source);
        steps.literal(&'[')?;
        let value = steps.typed::<i32>()?;
        steps.literal(&']')?;
        Ok((Signed(value), steps.finish()))
    }
}

#[test]
fn test_correct_consuming() {
    assert!(true);
    assert_eq!(
        EncasedInteger::consume_from("[42]").unwrap(),
        (EncasedInteger(42), "")
    );
}

#[test]
fn encased_value_and_nothing_left() {
    assert_eq!(Signed::consume_from("[42]"), Ok((Signed(42), "")));
    assert_eq!(Signed::consume_from("[-42]"), Ok((Signed(-42), "")));
}

#[test]
fn encased_value_and_what_follows() {
    assert_eq!(Signed::consume_from("[42] extra"), Ok((Signed(42), " extra")));
}

#[test]
fn a_failing_step_reports_its_place_in_the_source() {
    assert_eq!(
        Signed::consume_from("[42"),
        Err(ConsumeError::new_with(ConsumeErrorType::InsufficientTokens { index: 3 }))
    );
    assert_eq!(
        Signed::consume_from("[42)"),
        Err(ConsumeError::new_with(ConsumeErrorType::UnexpectedToken { index: 3, token: ')' }))
    );
    assert_eq!(
        Signed::consume_from("[x]"),
        Err(ConsumeError::new_with(ConsumeErrorType::UnexpectedToken { index: 1, token: 'x' }))
    );
    assert_eq!(
        Signed::consume_from("[-x]"),
        Err(ConsumeError::new_with(ConsumeErrorType::UnexpectedToken { index: 2, token: 'x' }))
    );
    assert_eq!(
        Signed::consume_from("(42]"),
        Err(ConsumeError::new_with(ConsumeErrorType::UnexpectedToken { index: 0, token: '(' }))
    );
}

#[test]
fn a_list_of_encased_integers() {
    let (items, rest) = <Vec<Signed>>::consume_from("[3][-4][5]!").unwrap();
    assert_eq!(items, vec![Signed(3), Signed(-4), Signed(5)]);
    assert_eq!(rest, "!");
    let sum: i32 = items.iter().map(|Signed(value)| value).sum();
    assert_eq!(sum, 4);
}

#[test]
fn the_items_of_a_source_one_at_a_time() {
    let mut iter = Signed::consume_iter("[3][4][-5]rest");
    let mut product = 1;
    while let Some(Signed(value)) = iter.next() {
        product *= value;
    }
    assert_eq!(product, -60);
    assert_eq!(iter.unconsumed(), "rest");
    assert_eq!(iter.next(), None);
    assert_eq!(iter.unconsumed(), "rest");
}
