use manger::chars::Space;
use manger::common::{OneOrMore, Whitespace};
use manger::consumable::{Outcome, Text};
use manger::sequence::{Steps, Variants};
use manger::{Consumable, ConsumeError, ConsumeErrorType};

// The grammars below are written by hand, step by step. The items of the protocol that only
// Verus reads end in `unreachable!()`: nothing calls them when the tests run.

type Attempt<'a, T> = Result<(T, &'a str), ConsumeError>;

type Variant<T> = for<'a> fn(Steps<'a>) -> Attempt<'a, T>;

fn first_of<'a, T>(source: &'a str, variants: &[Variant<T>]) -> Attempt<'a, T> {
    let mut tried = Variants::new(source);
    for variant in variants {
        match variant(tried.begin()) {
            Ok(found) => return Ok(found),
            Err(error) => tried.add_failure(error),
        }
    }
    Err(tried.into_error())
}

fn word<'a, T>(mut steps: Steps<'a>, text: &str, value: T) -> Attempt<'a, T> {
    steps.literal(&text)?;
    Ok((value, steps.finish()))
}

#[derive(Debug, PartialEq)]
enum AppleColor {
    Green,
    Red,
    Yellow,
}

#[derive(Debug, PartialEq)]
enum OrangeTaste {
    Sweet,
    Sour,
}

#[derive(Debug, PartialEq)]
enum Fruit {
    Apple(AppleColor),
    Banana,
    Pear,
    Orange(OrangeTaste),
}

fn green(steps: Steps<'_>) -> Attempt<'_, AppleColor> {
    word(steps, "green", AppleColor::Green)
}

fn red(steps: Steps<'_>) -> Attempt<'_, AppleColor> {
    word(steps, "red", AppleColor::Red)
}

fn yellow(steps: Steps<'_>) -> Attempt<'_, AppleColor> {
    word(steps, "yellow", AppleColor::Yellow)
}

impl Consumable for AppleColor {
    type Model = Self;

    fn model(&self) -> Self {
        unreachable!()
    }

    fn spec_consume(_: Text) -> Outcome<Self> {
        unreachable!()
    }

    fn lemma_outcome_fits(_: Text) {
        unreachable!()
    }

    fn consume_from(source: &str) -> Result<(Self, &str), ConsumeError> {
        first_of(source, &[green, red, yellow])
    }
}

fn sweet(steps: Steps<'_>) -> Attempt<'_, OrangeTaste> {
    word(steps, "sweet", OrangeTaste::Sweet)
}

fn sour(steps: Steps<'_>) -> Attempt<'_, OrangeTaste> {
    word(steps, "sour", OrangeTaste::Sour)
}

impl Consumable for OrangeTaste {
    type Model = Self;

    fn model(&self) -> Self {
        unreachable!()
    }

    fn spec_consume(_: Text) -> Outcome<Self> {
        unreachable!()
    }

    fn lemma_outcome_fits(_: Text) {
        unreachable!()
    }

    fn consume_from(source: &str) -> Result<(Self, &str), ConsumeError> {
        first_of(source, &[sweet, sour])
    }
}

fn apple(mut steps: Steps<'_>) -> Attempt<'_, Fruit> {
    let color = steps.typed::<AppleColor>()?;
    steps.typed::<Space>()?;
    steps.literal(&"apple")?;
    Ok((Fruit::Apple(color), steps.finish()))
}

fn orange(mut steps: Steps<'_>) -> Attempt<'_, Fruit> {
    let taste = steps.typed::<OrangeTaste>()?;
    steps.typed::<Space>()?;
    steps.literal(&"orange")?;
    Ok((Fruit::Orange(taste), steps.finish()))
}

fn banana(steps: Steps<'_>) -> Attempt<'_, Fruit> {
    word(steps, "banana", Fruit::Banana)
}

fn pear(steps: Steps<'_>) -> Attempt<'_, Fruit> {
    word(steps, "pear", Fruit::Pear)
}

impl Consumable for Fruit {
    type Model = Self;

    fn model(&self) -> Self {
        unreachable!()
    }

    fn spec_consume(_: Text) -> Outcome<Self> {
        unreachable!()
    }

    fn lemma_outcome_fits(_: Text) {
        unreachable!()
    }

    fn consume_from(source: &str) -> Result<(Self, &str), ConsumeError> {
        first_of(source, &[apple, banana, pear, orange])
    }
}

#[derive(Debug, PartialEq)]
enum Expression {
    Times(Box<Expression>, Box<Expression>),
    Plus(Box<Expression>, Box<Expression>),
    Constant(u32),
}

impl Expression {
    fn get_value(&self) -> u32 {
        match self {
            Expression::Times(l, r) => l.get_value() * r.get_value(),
            Expression::Plus(l, r) => l.get_value() + r.get_value(),
            Expression::Constant(v) => *v,
        }
    }
}

fn operands(
    mut steps: Steps<'_>,
    operator: char,
) -> Attempt<'_, (Box<Expression>, Box<Expression>)> {
    steps.literal(&operator)?;
    steps.typed::<OneOrMore<Whitespace>>()?;
    let left = steps.typed::<Box<Expression>>()?;
    steps.typed::<OneOrMore<Whitespace>>()?;
    let right = steps.typed::<Box<Expression>>()?;
    Ok(((left, right), steps.finish()))
}

fn times(steps: Steps<'_>) -> Attempt<'_, Expression> {
    operands(steps, '*').map(|((left, right), rest)| (Expression::Times(left, right), rest))
}

fn plus(steps: Steps<'_>) -> Attempt<'_, Expression> {
    operands(steps, '+').map(|((left, right), rest)| (Expression::Plus(left, right), rest))
}

fn constant(mut steps: Steps<'_>) -> Attempt<'_, Expression> {
    let value = steps.typed::<u32>()?;
    Ok((Expression::Constant(value), steps.finish()))
}

impl Consumable for Expression {
    type Model = Self;

    fn model(&self) -> Self {
        unreachable!()
    }

    fn spec_consume(_: Text) -> Outcome<Self> {
        unreachable!()
    }

    fn lemma_outcome_fits(_: Text) {
        unreachable!()
    }

    fn consume_from(source: &str) -> Result<(Self, &str), ConsumeError> {
        first_of(source, &[times, plus, constant])
    }
}

#[test]
fn macros_parse_apple_color() {
    assert_eq!(
        AppleColor::consume_from("red").unwrap(),
        (AppleColor::Red, "")
    );
    assert_eq!(
        AppleColor::consume_from("redABC").unwrap(),
        (AppleColor::Red, "ABC")
    );

    assert_eq!(
        AppleColor::consume_from("green").unwrap(),
        (AppleColor::Green, "")
    );
    assert_eq!(
        AppleColor::consume_from("greenABC").unwrap(),
        (AppleColor::Green, "ABC")
    );

    assert_eq!(
        AppleColor::consume_from("yellow").unwrap(),
        (AppleColor::Yellow, "")
    );
    assert_eq!(
        AppleColor::consume_from("yellowABC").unwrap(),
        (AppleColor::Yellow, "ABC")
    );

    assert!(AppleColor::consume_from("yelloABC").is_err());
}

#[test]
fn macros_parse_orange_taste() {
    assert_eq!(
        OrangeTaste::consume_from("sweet").unwrap(),
        (OrangeTaste::Sweet, "")
    );
    assert_eq!(
        OrangeTaste::consume_from("sweetABC").unwrap(),
        (OrangeTaste::Sweet, "ABC")
    );

    assert_eq!(
        OrangeTaste::consume_from("sour").unwrap(),
        (OrangeTaste::Sour, "")
    );
    assert_eq!(
        OrangeTaste::consume_from("sourABC").unwrap(),
        (OrangeTaste::Sour, "ABC")
    );

    assert!(OrangeTaste::consume_from("souABC").is_err());
}

#[test]
fn macros_parse_fruit() {
    assert_eq!(
        Fruit::consume_from("red apple").unwrap(),
        (Fruit::Apple(AppleColor::Red), "")
    );
    assert_eq!(
        Fruit::consume_from("yellow appleABC").unwrap(),
        (Fruit::Apple(AppleColor::Yellow), "ABC")
    );

    assert_eq!(Fruit::consume_from("banana").unwrap(), (Fruit::Banana, ""));
    assert_eq!(
        Fruit::consume_from("pearABC").unwrap(),
        (Fruit::Pear, "ABC")
    );

    assert_eq!(
        Fruit::consume_from("sweet orange").unwrap(),
        (Fruit::Orange(OrangeTaste::Sweet), "")
    );

    assert!(Fruit::consume_from("souABC").is_err());
}

#[test]
fn macros_test_constant_parsing() {
    assert_eq!(
        Expression::consume_from("123").unwrap(),
        (Expression::Constant(123), "")
    );

    assert_eq!(
        Expression::consume_from("321").unwrap(),
        (Expression::Constant(321), "")
    );
}

#[test]
fn macros_test_times_parsing() {
    assert_eq!(
        Expression::consume_from("* \n 123 321").unwrap(),
        (
            Expression::Times(
                Box::new(Expression::Constant(123)),
                Box::new(Expression::Constant(321))
            ),
            ""
        )
    );

    assert_eq!(Expression::consume_from("* 5 3").unwrap().0.get_value(), 15);
}

#[test]
fn macros_test_plus_parsing() {
    assert_eq!(
        Expression::consume_from("+ \n 123 321").unwrap(),
        (
            Expression::Plus(
                Box::new(Expression::Constant(123)),
                Box::new(Expression::Constant(321))
            ),
            ""
        )
    );

    assert_eq!(Expression::consume_from("+ 5 3").unwrap().0.get_value(), 8);
}

#[test]
fn test_errors() {
    assert_eq!(
        Expression::consume_from("*x"),
        Err(ConsumeError::new_from(vec![
            ConsumeErrorType::InvalidValue { index: 1 },
            ConsumeErrorType::UnexpectedToken {
                index: 0,
                token: '*'
            },
            ConsumeErrorType::UnexpectedToken {
                index: 0,
                token: '*'
            }
        ]))
    );
}

#[test]
fn macros_test_combination_parsing() {
    assert_eq!(
        Expression::consume_from("+ *\n 123 321 456").unwrap(),
        (
            Expression::Plus(
                Box::new(Expression::Times(
                    Box::new(Expression::Constant(123)),
                    Box::new(Expression::Constant(321))
                )),
                Box::new(Expression::Constant(456))
            ),
            ""
        )
    );

    assert_eq!(
        Expression::consume_from("+ * + * 5 3 2 1 4")
            .unwrap()
            .0
            .get_value(),
        ((((5 * 3) + 2) * 1) + 4)
    );
}
