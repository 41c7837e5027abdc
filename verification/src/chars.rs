//! Single characters as types, so that a fixed character can stand wherever a type is asked
//! for: in a tuple, behind `Option`, as one side of an `Either`.

use vstd::prelude::*;
use vstd::std_specs::convert::FromSpecImpl;
use crate::consumable::{Consumable, Outcome, Text};
use crate::either::Either;
use crate::error::ConsumeError;
use crate::sequence::{Steps, Variants};

pub mod alpha;
pub mod num;

verus! {

/// The character whose code point is `CODE`, as a type of its own. It is consumed where the
/// source starts with that character, and fails as the literal does where it does not.
#[derive(Debug, PartialEq, Eq, Clone, Copy)]
pub struct Token<const CODE: u8>;

impl<const CODE: u8> Token<CODE> {
    /// The character that the type stands for.
    pub open spec fn spec_char() -> char {
        CODE as char
    }

    /// The character that the type stands for.
    pub fn character() -> (token: char)
        ensures
            token == Self::spec_char(),
    {
        CODE as char
    }
}

impl<const CODE: u8> Consumable for Token<CODE> {
    type Model = Token<CODE>;

    open spec fn model(&self) -> Token<CODE> {
        *self
    }

    open spec fn spec_consume(source: Text) -> Outcome<Token<CODE>> {
        match crate::literal::spec_consume_literal(seq![Self::spec_char()], source) {
            Ok(count) => Ok((Token, count)),
            Err(causes) => Err(causes),
        }
    }

    proof fn lemma_outcome_fits(source: Text) {
        crate::literal::lemma_literal_fits(seq![Self::spec_char()], source);
    }

    fn consume_from(source: &str) -> (result: Result<(Self, &str), ConsumeError>) {
        proof {
            Self::lemma_outcome_fits(source@);
        }
        let mut steps = Steps::new(source);
        steps.literal(&Self::character())?;
        Ok((Token, steps.finish()))
    }
}

impl<const CODE: u8> FromSpecImpl<Token<CODE>> for char {
    open spec fn obeys_from_spec() -> bool {
        true
    }

    open spec fn from_spec(token: Token<CODE>) -> char {
        CODE as char
    }
}

impl<const CODE: u8> From<Token<CODE>> for char {
    fn from(token: Token<CODE>) -> (character: char)
        ensures
            character == CODE as char,
    {
        CODE as char
    }
}

impl<const CODE: u8> FromSpecImpl<Token<CODE>> for u8 {
    open spec fn obeys_from_spec() -> bool {
        true
    }

    open spec fn from_spec(token: Token<CODE>) -> u8 {
        CODE
    }
}

impl<const CODE: u8> From<Token<CODE>> for u8 {
    fn from(token: Token<CODE>) -> (byte: u8)
        ensures
            byte == CODE,
    {
        CODE
    }
}

/// A letter in either case: `Lowercase` where the character with code point `LOWER` was
/// consumed, `Uppercase` where it was the one with code point `UPPER`.
///
/// The lower case is tried first. Where neither is found the failure holds the cause of
/// both attempts, in that order.
#[derive(Debug, PartialEq, Eq, Clone, Copy)]
pub enum Letter<const LOWER: u8, const UPPER: u8> {
    /// The letter in lower case.
    Lowercase,
    /// The letter in upper case.
    Uppercase,
}

impl<const LOWER: u8, const UPPER: u8> Consumable for Letter<LOWER, UPPER> {
    type Model = Letter<LOWER, UPPER>;

    open spec fn model(&self) -> Letter<LOWER, UPPER> {
        *self
    }

    open spec fn spec_consume(source: Text) -> Outcome<Letter<LOWER, UPPER>> {
        match <Either<Token<LOWER>, Token<UPPER>>>::spec_consume(source) {
            Ok((Either::Left(_), count)) => Ok((Letter::Lowercase, count)),
            Ok((Either::Right(_), count)) => Ok((Letter::Uppercase, count)),
            Err(causes) => Err(causes),
        }
    }

    proof fn lemma_outcome_fits(source: Text) {
        <Either<Token<LOWER>, Token<UPPER>>>::lemma_outcome_fits(source);
    }

    fn consume_from(source: &str) -> (result: Result<(Self, &str), ConsumeError>) {
        proof {
            Self::lemma_outcome_fits(source@);
        }
        let mut variants = Variants::new(source);

        let mut steps = variants.begin();
        match steps.typed::<Token<LOWER>>() {
            Ok(_) => {
                return Ok((Letter::Lowercase, steps.finish()));
            },
            Err(error) => variants.add_failure(error),
        }

        let mut steps = variants.begin();
        match steps.typed::<Token<UPPER>>() {
            Ok(_) => {
                return Ok((Letter::Uppercase, steps.finish()));
            },
            Err(error) => variants.add_failure(error),
        }

        Err(variants.into_error())
    }
}

impl<const LOWER: u8, const UPPER: u8> FromSpecImpl<Letter<LOWER, UPPER>> for char {
    open spec fn obeys_from_spec() -> bool {
        true
    }

    open spec fn from_spec(letter: Letter<LOWER, UPPER>) -> char {
        match letter {
            Letter::Lowercase => LOWER as char,
            Letter::Uppercase => UPPER as char,
        }
    }
}

impl<const LOWER: u8, const UPPER: u8> From<Letter<LOWER, UPPER>> for char {
    fn from(letter: Letter<LOWER, UPPER>) -> (character: char)
        ensures
            character == (match letter {
                Letter::Lowercase => LOWER as char,
                Letter::Uppercase => UPPER as char,
            }),
    {
        match letter {
            Letter::Lowercase => LOWER as char,
            Letter::Uppercase => UPPER as char,
        }
    }
}

impl<const LOWER: u8, const UPPER: u8> FromSpecImpl<Letter<LOWER, UPPER>> for u8 {
    open spec fn obeys_from_spec() -> bool {
        true
    }

    open spec fn from_spec(letter: Letter<LOWER, UPPER>) -> u8 {
        match letter {
            Letter::Lowercase => LOWER,
            Letter::Uppercase => UPPER,
        }
    }
}

impl<const LOWER: u8, const UPPER: u8> From<Letter<LOWER, UPPER>> for u8 {
    fn from(letter: Letter<LOWER, UPPER>) -> (byte: u8)
        ensures
            byte == (match letter {
                Letter::Lowercase => LOWER,
                Letter::Uppercase => UPPER,
            }),
    {
        match letter {
            Letter::Lowercase => LOWER,
            Letter::Uppercase => UPPER,
        }
    }
}

/// The character a space.
pub type Space = Token<32>;

/// The character a tab.
pub type Tab = Token<9>;

/// The character a line feed.
pub type NewLine = Token<10>;

/// The character `!`.
pub type Exclamation = Token<33>;

/// The character `"`.
pub type DoubleQuotes = Token<34>;

/// The character `#`.
pub type Hash = Token<35>;

/// The character `$`.
pub type Dollar = Token<36>;

/// The character `%`.
pub type Percent = Token<37>;

/// The character `&`.
pub type Ampersand = Token<38>;

/// The character `'`.
pub type SingleQuote = Token<39>;

/// The character `*`.
pub type Asterisk = Token<42>;

/// The character `+`.
pub type Plus = Token<43>;

/// The character `,`.
pub type Comma = Token<44>;

/// The character `-`.
pub type Hyphen = Token<45>;

/// The character `.`.
pub type Period = Token<46>;

/// The character `/`.
pub type Slash = Token<47>;

/// The character `:`.
pub type Colon = Token<58>;

/// The character `;`.
pub type Semicolon = Token<59>;

/// The character `?`.
pub type Question = Token<63>;

/// The character `@`.
pub type At = Token<64>;

/// The character `\`.
pub type Backslash = Token<92>;

/// The character `^`.
pub type Caret = Token<94>;

/// The character `_`.
pub type Underscore = Token<95>;

/// The character ```.
pub type Grave = Token<96>;

/// The character `|`.
pub type VerticalBar = Token<124>;

/// The character `~`.
pub type Tilde = Token<126>;

/// The character `(`.
pub type OpenParenthese = Token<40>;

/// The character `)`.
pub type CloseParenthese = Token<41>;

/// The character `[`.
pub type OpenBracket = Token<91>;

/// The character `]`.
pub type CloseBracket = Token<93>;

/// The character `{`.
pub type OpenBrace = Token<123>;

/// The character `}`.
pub type CloseBrace = Token<125>;

/// The character `<`.
pub type LessThan = Token<60>;

/// The character `>`.
pub type MoreThan = Token<62>;

/// The character `=`.
pub type Equals = Token<61>;

} // verus!
