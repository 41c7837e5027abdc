//! A combinatoric parser over UTF-8 text whose every step is specified and proved.
//!
//! A type that is [`Consumable`] says how a prefix of a `&str` is turned into a value of the
//! type, leaving the unconsumed rest, or why no prefix fits. All positions are counted in
//! characters, never in bytes.
//!
//! ```text
//! let (answer, unconsumed) = u32::consume_from("42 is the answer!")?;
//! assert_eq!(answer, 42);
//! assert_eq!(unconsumed, " is the answer!");
//! ```
//!
//! # What the types of the language stand for
//!
//! | type | consumes | fails |
//! |---|---|---|
//! | `Option<T>` | a `T`, or nothing | never |
//! | `Vec<T>` | as many `T` as there are | never |
//! | [`OneOrMore<T>`] | as many `T` as there are | where there is none |
//! | `Box<T>` | a `T` | as `T` does |
//! | `(A, B)` up to ten slots | the slots in order | where a slot does, at its place in the source |
//! | [`Either<L, R>`] | an `L`, or else an `R` from the same start | where both do, with the causes of both |
//!
//! # What is proved
//!
//! Every type states in [`Consumable::spec_consume`] what consuming from a sequence of
//! characters comes to: a mathematical value and the number of characters that it takes, or
//! the causes of the failure. [`Consumable::consume_from`] is proved to return exactly that.
//! On top of it the module [`laws`] proves what holds whatever the types are: that what is
//! left is a suffix of the source, that a repetition comes to an end, that the index of an
//! error is moved once for each enclosing sequence, that a choice tries each alternative
//! from the same start and keeps the causes of all of them.
//!
//! # Grammars
//!
//! A grammar of one's own is a list of steps, written with [`sequence::Steps`]:
//!
//! ```text
//! struct EncasedInteger(i32);
//!
//! fn consume_from(source: &str) -> Result<(EncasedInteger, &str), ConsumeError> {
//!     let mut steps = Steps::new(source);
//!     steps.literal(&'[')?;
//!     let value = steps.typed::<i32>()?;
//!     steps.literal(&']')?;
//!     Ok((EncasedInteger(value), steps.finish()))
//! }
//! ```
//!
//! The modules are declared from the ground up: each one builds on those above it.

pub mod error;
pub mod text;
pub mod consumable;
pub mod iter;
pub mod literal;
pub mod source;
pub mod sequence;
pub mod impls;
pub mod tuples;
pub mod either;
pub mod one_or_more;
pub mod chars;
pub mod common;
pub mod standard;
pub mod integers;
pub mod floats;
pub mod parser;
pub mod laws;

pub use consumable::Consumable;
pub use either::Either;
pub use iter::ConsumeIter;
pub use error::{Cause, ConsumeError, ConsumeErrorType};
pub use literal::SelfConsumable;
pub use one_or_more::OneOrMore;
pub use parser::Parser;
pub use source::ConsumeSource;
