//! Types for what comes up in almost every grammar: a digit, a sign, white space, the end
//! of the text, and the step that matches anything.

pub mod catch_all;
pub mod digit;
pub mod end;
pub mod sign;
pub mod whitespace;

pub use crate::one_or_more::OneOrMore;
pub use catch_all::CatchAll;
pub use digit::Digit;
pub use end::End;
pub use sign::Sign;
pub use whitespace::Whitespace;
