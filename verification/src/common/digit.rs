//! A decimal digit.

use vstd::prelude::*;
use vstd::std_specs::convert::FromSpecImpl;
use crate::consumable::{Consumable, Outcome, Text};
use crate::error::{Cause, ConsumeError, ConsumeErrorType};

verus! {

/// A decimal digit.
#[derive(Debug, PartialEq, Eq, Clone, Copy)]
pub enum Digit {
    /// The digit `0`.
    Zero,
    /// The digit `1`.
    One,
    /// The digit `2`.
    Two,
    /// The digit `3`.
    Three,
    /// The digit `4`.
    Four,
    /// The digit `5`.
    Five,
    /// The digit `6`.
    Six,
    /// The digit `7`.
    Seven,
    /// The digit `8`.
    Eight,
    /// The digit `9`.
    Nine,
}

impl Digit {
    /// The number that the digit stands for.
    pub open spec fn spec_value(self) -> nat {
        match self {
            Digit::Zero => 0,
            Digit::One => 1,
            Digit::Two => 2,
            Digit::Three => 3,
            Digit::Four => 4,
            Digit::Five => 5,
            Digit::Six => 6,
            Digit::Seven => 7,
            Digit::Eight => 8,
            Digit::Nine => 9,
        }
    }

    /// The digit that `token` is written for, if it is one of `0` to `9`.
    pub open spec fn of_char(token: char) -> Option<Digit> {
        if token == '0' {
            Some(Digit::Zero)
        } else if token == '1' {
            Some(Digit::One)
        } else if token == '2' {
            Some(Digit::Two)
        } else if token == '3' {
            Some(Digit::Three)
        } else if token == '4' {
            Some(Digit::Four)
        } else if token == '5' {
            Some(Digit::Five)
        } else if token == '6' {
            Some(Digit::Six)
        } else if token == '7' {
            Some(Digit::Seven)
        } else if token == '8' {
            Some(Digit::Eight)
        } else if token == '9' {
            Some(Digit::Nine)
        } else {
            None
        }
    }

    /// The number that the digit stands for, in the integer type that is asked for.
    pub fn value<'a, T: From<&'a Digit>>(&'a self) -> (value: T)
        ensures
            <T as vstd::std_specs::convert::FromSpec<&Digit>>::obeys_from_spec() ==> value == <T as vstd::std_specs::convert::FromSpec<
                &Digit,
            >>::from_spec(self),
    {
        T::from(self)
    }
}

impl Consumable for Digit {
    type Model = Digit;

    open spec fn model(&self) -> Digit {
        *self
    }

    open spec fn spec_consume(source: Text) -> Outcome<Digit> {
        if source.len() == 0 {
            Err(seq![Cause::InsufficientTokens { index: 0 }])
        } else {
            match Digit::of_char(source[0]) {
                Some(digit) => Ok((digit, 1nat)),
                None => Err(seq![Cause::UnexpectedToken { index: 0, token: source[0] }]),
            }
        }
    }

    proof fn lemma_outcome_fits(source: Text) {
        if source.len() > 0 {
            crate::text::lemma_char_in_seq(source, 0);
        }
    }

    fn consume_from(source: &str) -> (result: Result<(Self, &str), ConsumeError>) {
        proof {
            Self::lemma_outcome_fits(source@);
        }
        let digit = match crate::text::first_char(source) {
            None => {
                return Err(
                    ConsumeError::new_with(ConsumeErrorType::InsufficientTokens { index: 0 }),
                );
            },
            Some('0') => Digit::Zero,
            Some('1') => Digit::One,
            Some('2') => Digit::Two,
            Some('3') => Digit::Three,
            Some('4') => Digit::Four,
            Some('5') => Digit::Five,
            Some('6') => Digit::Six,
            Some('7') => Digit::Seven,
            Some('8') => Digit::Eight,
            Some('9') => Digit::Nine,
            Some(token) => {
                return Err(
                    ConsumeError::new_with(ConsumeErrorType::UnexpectedToken { index: 0, token }),
                );
            },
        };
        Ok((digit, utf8_slice::from(source, 1)))
    }
}

impl FromSpecImpl<&Digit> for u8 {
    open spec fn obeys_from_spec() -> bool {
        true
    }

    open spec fn from_spec(digit: &Digit) -> u8 {
        digit.spec_value() as u8
    }
}

impl From<&Digit> for u8 {
    fn from(digit: &Digit) -> (value: u8)
        ensures
            value == digit.spec_value() as u8,
    {
        match digit {
            Digit::Zero => 0,
            Digit::One => 1,
            Digit::Two => 2,
            Digit::Three => 3,
            Digit::Four => 4,
            Digit::Five => 5,
            Digit::Six => 6,
            Digit::Seven => 7,
            Digit::Eight => 8,
            Digit::Nine => 9,
        }
    }
}

impl FromSpecImpl<&Digit> for u16 {
    open spec fn obeys_from_spec() -> bool {
        true
    }

    open spec fn from_spec(digit: &Digit) -> u16 {
        digit.spec_value() as u16
    }
}

impl From<&Digit> for u16 {
    fn from(digit: &Digit) -> (value: u16)
        ensures
            value == digit.spec_value() as u16,
    {
        match digit {
            Digit::Zero => 0,
            Digit::One => 1,
            Digit::Two => 2,
            Digit::Three => 3,
            Digit::Four => 4,
            Digit::Five => 5,
            Digit::Six => 6,
            Digit::Seven => 7,
            Digit::Eight => 8,
            Digit::Nine => 9,
        }
    }
}

impl FromSpecImpl<&Digit> for u32 {
    open spec fn obeys_from_spec() -> bool {
        true
    }

    open spec fn from_spec(digit: &Digit) -> u32 {
        digit.spec_value() as u32
    }
}

impl From<&Digit> for u32 {
    fn from(digit: &Digit) -> (value: u32)
        ensures
            value == digit.spec_value() as u32,
    {
        match digit {
            Digit::Zero => 0,
            Digit::One => 1,
            Digit::Two => 2,
            Digit::Three => 3,
            Digit::Four => 4,
            Digit::Five => 5,
            Digit::Six => 6,
            Digit::Seven => 7,
            Digit::Eight => 8,
            Digit::Nine => 9,
        }
    }
}

impl FromSpecImpl<&Digit> for u64 {
    open spec fn obeys_from_spec() -> bool {
        true
    }

    open spec fn from_spec(digit: &Digit) -> u64 {
        digit.spec_value() as u64
    }
}

impl From<&Digit> for u64 {
    fn from(digit: &Digit) -> (value: u64)
        ensures
            value == digit.spec_value() as u64,
    {
        match digit {
            Digit::Zero => 0,
            Digit::One => 1,
            Digit::Two => 2,
            Digit::Three => 3,
            Digit::Four => 4,
            Digit::Five => 5,
            Digit::Six => 6,
            Digit::Seven => 7,
            Digit::Eight => 8,
            Digit::Nine => 9,
        }
    }
}

impl FromSpecImpl<&Digit> for u128 {
    open spec fn obeys_from_spec() -> bool {
        true
    }

    open spec fn from_spec(digit: &Digit) -> u128 {
        digit.spec_value() as u128
    }
}

impl From<&Digit> for u128 {
    fn from(digit: &Digit) -> (value: u128)
        ensures
            value == digit.spec_value() as u128,
    {
        match digit {
            Digit::Zero => 0,
            Digit::One => 1,
            Digit::Two => 2,
            Digit::Three => 3,
            Digit::Four => 4,
            Digit::Five => 5,
            Digit::Six => 6,
            Digit::Seven => 7,
            Digit::Eight => 8,
            Digit::Nine => 9,
        }
    }
}

impl FromSpecImpl<&Digit> for usize {
    open spec fn obeys_from_spec() -> bool {
        true
    }

    open spec fn from_spec(digit: &Digit) -> usize {
        digit.spec_value() as usize
    }
}

impl From<&Digit> for usize {
    fn from(digit: &Digit) -> (value: usize)
        ensures
            value == digit.spec_value() as usize,
    {
        match digit {
            Digit::Zero => 0,
            Digit::One => 1,
            Digit::Two => 2,
            Digit::Three => 3,
            Digit::Four => 4,
            Digit::Five => 5,
            Digit::Six => 6,
            Digit::Seven => 7,
            Digit::Eight => 8,
            Digit::Nine => 9,
        }
    }
}

impl FromSpecImpl<&Digit> for i8 {
    open spec fn obeys_from_spec() -> bool {
        true
    }

    open spec fn from_spec(digit: &Digit) -> i8 {
        digit.spec_value() as i8
    }
}

impl From<&Digit> for i8 {
    fn from(digit: &Digit) -> (value: i8)
        ensures
            value == digit.spec_value() as i8,
    {
        match digit {
            Digit::Zero => 0,
            Digit::One => 1,
            Digit::Two => 2,
            Digit::Three => 3,
            Digit::Four => 4,
            Digit::Five => 5,
            Digit::Six => 6,
            Digit::Seven => 7,
            Digit::Eight => 8,
            Digit::Nine => 9,
        }
    }
}

impl FromSpecImpl<&Digit> for i16 {
    open spec fn obeys_from_spec() -> bool {
        true
    }

    open spec fn from_spec(digit: &Digit) -> i16 {
        digit.spec_value() as i16
    }
}

impl From<&Digit> for i16 {
    fn from(digit: &Digit) -> (value: i16)
        ensures
            value == digit.spec_value() as i16,
    {
        match digit {
            Digit::Zero => 0,
            Digit::One => 1,
            Digit::Two => 2,
            Digit::Three => 3,
            Digit::Four => 4,
            Digit::Five => 5,
            Digit::Six => 6,
            Digit::Seven => 7,
            Digit::Eight => 8,
            Digit::Nine => 9,
        }
    }
}

impl FromSpecImpl<&Digit> for i32 {
    open spec fn obeys_from_spec() -> bool {
        true
    }

    open spec fn from_spec(digit: &Digit) -> i32 {
        digit.spec_value() as i32
    }
}

impl From<&Digit> for i32 {
    fn from(digit: &Digit) -> (value: i32)
        ensures
            value == digit.spec_value() as i32,
    {
        match digit {
            Digit::Zero => 0,
            Digit::One => 1,
            Digit::Two => 2,
            Digit::Three => 3,
            Digit::Four => 4,
            Digit::Five => 5,
            Digit::Six => 6,
            Digit::Seven => 7,
            Digit::Eight => 8,
            Digit::Nine => 9,
        }
    }
}

impl FromSpecImpl<&Digit> for i64 {
    open spec fn obeys_from_spec() -> bool {
        true
    }

    open spec fn from_spec(digit: &Digit) -> i64 {
        digit.spec_value() as i64
    }
}

impl From<&Digit> for i64 {
    fn from(digit: &Digit) -> (value: i64)
        ensures
            value == digit.spec_value() as i64,
    {
        match digit {
            Digit::Zero => 0,
            Digit::One => 1,
            Digit::Two => 2,
            Digit::Three => 3,
            Digit::Four => 4,
            Digit::Five => 5,
            Digit::Six => 6,
            Digit::Seven => 7,
            Digit::Eight => 8,
            Digit::Nine => 9,
        }
    }
}

impl FromSpecImpl<&Digit> for i128 {
    open spec fn obeys_from_spec() -> bool {
        true
    }

    open spec fn from_spec(digit: &Digit) -> i128 {
        digit.spec_value() as i128
    }
}

impl From<&Digit> for i128 {
    fn from(digit: &Digit) -> (value: i128)
        ensures
            value == digit.spec_value() as i128,
    {
        match digit {
            Digit::Zero => 0,
            Digit::One => 1,
            Digit::Two => 2,
            Digit::Three => 3,
            Digit::Four => 4,
            Digit::Five => 5,
            Digit::Six => 6,
            Digit::Seven => 7,
            Digit::Eight => 8,
            Digit::Nine => 9,
        }
    }
}

impl FromSpecImpl<&Digit> for isize {
    open spec fn obeys_from_spec() -> bool {
        true
    }

    open spec fn from_spec(digit: &Digit) -> isize {
        digit.spec_value() as isize
    }
}

impl From<&Digit> for isize {
    fn from(digit: &Digit) -> (value: isize)
        ensures
            value == digit.spec_value() as isize,
    {
        match digit {
            Digit::Zero => 0,
            Digit::One => 1,
            Digit::Two => 2,
            Digit::Three => 3,
            Digit::Four => 4,
            Digit::Five => 5,
            Digit::Six => 6,
            Digit::Seven => 7,
            Digit::Eight => 8,
            Digit::Nine => 9,
        }
    }
}

} // verus!
