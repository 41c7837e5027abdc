//! A sign, a digit and the empty step in their plainest form: a `bool`, a `u8` and nothing.

use vstd::prelude::*;
use crate::chars;
use crate::consumable::{Consumable, Outcome, Text};
use crate::either::Either;
use crate::error::{Cause, ConsumeError, ConsumeErrorType};

verus! {

/// The number that `c` stands for as a digit: `0` to `9` for the decimal digits, and
/// `10` to `35` for the letters `a` to `z`, in either case. No other character is a digit.
pub open spec fn digit_value(c: char) -> Option<nat> {
    if '0' <= c <= '9' {
        Some((c as nat - '0' as nat) as nat)
    } else if 'a' <= c <= 'z' {
        Some((c as nat - 'a' as nat + 10) as nat)
    } else if 'A' <= c <= 'Z' {
        Some((c as nat - 'A' as nat + 10) as nat)
    } else {
        None
    }
}

/// `char::to_digit` gives the number that the character stands for as a digit in the
/// given radix, and nothing where the character is no digit in that radix. It panics on a
/// radix below 2 or above 36.
pub assume_specification[ char::to_digit ](c: char, radix: u32) -> (digit: Option<u32>)
    requires
        2 <= radix <= 36,
    ensures
        digit == (match digit_value(c) {
            Some(value) => if value < radix {
                Some(value as u32)
            } else {
                None
            },
            None => None,
        }),
;

/// A sign as a `bool`: `false` where a `-` was consumed, `true` where a `+` was consumed
/// or nothing.
#[derive(Debug, PartialEq, Eq, Clone, Copy)]
pub struct Sign(pub bool);

impl Consumable for Sign {
    type Model = Sign;

    open spec fn model(&self) -> Sign {
        *self
    }

    open spec fn spec_consume(source: Text) -> Outcome<Sign> {
        match <Either<chars::Hyphen, Option<chars::Plus>>>::spec_consume(source) {
            Ok((item, count)) => Ok((Sign(item is Right), count)),
            Err(causes) => Err(causes),
        }
    }

    proof fn lemma_outcome_fits(source: Text) {
        <Either<chars::Hyphen, Option<chars::Plus>>>::lemma_outcome_fits(source);
    }

    fn consume_from(source: &str) -> (result: Result<(Self, &str), ConsumeError>) {
        proof {
            Self::lemma_outcome_fits(source@);
        }
        let (item, unconsumed) = <Either<chars::Hyphen, Option<chars::Plus>>>::consume_from(
            source,
        )?;
        Ok((Sign(item.is_right()), unconsumed))
    }
}

/// The step that consumes nothing and always succeeds.
#[derive(Debug, PartialEq, Eq, Clone, Copy)]
pub struct Empty;

impl Consumable for Empty {
    type Model = Empty;

    open spec fn model(&self) -> Empty {
        *self
    }

    open spec fn spec_consume(source: Text) -> Outcome<Empty> {
        Ok((Empty, 0nat))
    }

    proof fn lemma_outcome_fits(source: Text) {
    }

    fn consume_from(source: &str) -> (result: Result<(Self, &str), ConsumeError>) {
        Ok((Empty, source))
    }
}

/// A decimal digit as the number that it stands for.
#[derive(Debug, PartialEq, Eq, Clone, Copy)]
pub struct Digit(pub u8);

impl Consumable for Digit {
    type Model = Digit;

    open spec fn model(&self) -> Digit {
        *self
    }

    open spec fn spec_consume(source: Text) -> Outcome<Digit> {
        if source.len() == 0 {
            Err(seq![Cause::InsufficientTokens { index: 0 }])
        } else if '0' <= source[0] <= '9' {
            Ok((Digit((source[0] as nat - '0' as nat) as u8), 1nat))
        } else {
            Err(seq![Cause::UnexpectedToken { index: 0, token: source[0] }])
        }
    }

    proof fn lemma_outcome_fits(source: Text) {
        if source.len() > 0 {
            crate::text::lemma_char_in_seq(source, 0);
        }
    }

    fn consume_from(source: &str) -> (result: Result<(Self, &str), ConsumeError>) {
        proof {
            Self::lemma_outcome_fits(source@);
        }
        if let Some(token) = crate::text::first_char(source) {
            match token.to_digit(10) {
                Some(digit) => Ok((Digit(digit as u8), utf8_slice::from(source, 1))),
                None => Err(
                    ConsumeError::new_with(ConsumeErrorType::UnexpectedToken { index: 0, token }),
                ),
            }
        } else {
            Err(ConsumeError::new_with(ConsumeErrorType::InsufficientTokens { index: 0 }))
        }
    }
}

} // verus!
