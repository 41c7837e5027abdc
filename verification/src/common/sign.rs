//! The sign of a number.

use vstd::prelude::*;
use vstd::std_specs::convert::FromSpecImpl;
use crate::consumable::{Consumable, Outcome, Text};
use crate::error::ConsumeError;

verus! {

/// The sign of a number: `Negative` where the text starts with `-`, `Positive` where it
/// starts with `+` or with neither of the two.
#[derive(Debug, PartialEq, Eq, Clone, Copy)]
pub enum Sign {
    /// A `+` was consumed, or nothing.
    Positive,
    /// A `-` was consumed.
    Negative,
}

impl Sign {
    /// `1` for `Positive` and `-1` for `Negative`.
    pub open spec fn spec_normal(self) -> int {
        match self {
            Sign::Positive => 1,
            Sign::Negative => -1,
        }
    }

    /// `1` for `Positive` and `-1` for `Negative`, in the integer type that is asked for.
    pub fn normal<'a, T: From<&'a Sign>>(&'a self) -> (normal: T)
        ensures
            <T as vstd::std_specs::convert::FromSpec<&Sign>>::obeys_from_spec() ==> normal == <T as vstd::std_specs::convert::FromSpec<
                &Sign,
            >>::from_spec(self),
    {
        T::from(self)
    }

    /// Whether the sign is `Positive`.
    pub fn is_positive(&self) -> (positive: bool)
        ensures
            positive == (*self == Sign::Positive),
    {
        match self {
            Sign::Positive => true,
            Sign::Negative => false,
        }
    }

    /// Whether the sign is `Negative`.
    pub fn is_negative(&self) -> (negative: bool)
        ensures
            negative == (*self == Sign::Negative),
    {
        match self {
            Sign::Positive => false,
            Sign::Negative => true,
        }
    }
}

impl Consumable for Sign {
    type Model = Sign;

    open spec fn model(&self) -> Sign {
        *self
    }

    open spec fn spec_consume(source: Text) -> Outcome<Sign> {
        if source.len() > 0 && source[0] == '-' {
            Ok((Sign::Negative, 1nat))
        } else if source.len() > 0 && source[0] == '+' {
            Ok((Sign::Positive, 1nat))
        } else {
            Ok((Sign::Positive, 0nat))
        }
    }

    proof fn lemma_outcome_fits(source: Text) {
    }

    fn consume_from(source: &str) -> (result: Result<(Self, &str), ConsumeError>) {
        Ok(
            match crate::text::first_char(source) {
                Some('-') => (Sign::Negative, utf8_slice::from(source, 1)),
                Some('+') => (Sign::Positive, utf8_slice::from(source, 1)),
                _ => {
                    (Sign::Positive, source)
                },
            },
        )
    }
}

impl FromSpecImpl<&Sign> for i8 {
    open spec fn obeys_from_spec() -> bool {
        true
    }

    open spec fn from_spec(sign: &Sign) -> i8 {
        sign.spec_normal() as i8
    }
}

impl From<&Sign> for i8 {
    fn from(sign: &Sign) -> (normal: i8)
        ensures
            normal == sign.spec_normal() as i8,
    {
        match sign {
            Sign::Positive => 1,
            Sign::Negative => -1,
        }
    }
}

impl FromSpecImpl<&Sign> for i16 {
    open spec fn obeys_from_spec() -> bool {
        true
    }

    open spec fn from_spec(sign: &Sign) -> i16 {
        sign.spec_normal() as i16
    }
}

impl From<&Sign> for i16 {
    fn from(sign: &Sign) -> (normal: i16)
        ensures
            normal == sign.spec_normal() as i16,
    {
        match sign {
            Sign::Positive => 1,
            Sign::Negative => -1,
        }
    }
}

impl FromSpecImpl<&Sign> for i32 {
    open spec fn obeys_from_spec() -> bool {
        true
    }

    open spec fn from_spec(sign: &Sign) -> i32 {
        sign.spec_normal() as i32
    }
}

impl From<&Sign> for i32 {
    fn from(sign: &Sign) -> (normal: i32)
        ensures
            normal == sign.spec_normal() as i32,
    {
        match sign {
            Sign::Positive => 1,
            Sign::Negative => -1,
        }
    }
}

impl FromSpecImpl<&Sign> for i64 {
    open spec fn obeys_from_spec() -> bool {
        true
    }

    open spec fn from_spec(sign: &Sign) -> i64 {
        sign.spec_normal() as i64
    }
}

impl From<&Sign> for i64 {
    fn from(sign: &Sign) -> (normal: i64)
        ensures
            normal == sign.spec_normal() as i64,
    {
        match sign {
            Sign::Positive => 1,
            Sign::Negative => -1,
        }
    }
}

impl FromSpecImpl<&Sign> for i128 {
    open spec fn obeys_from_spec() -> bool {
        true
    }

    open spec fn from_spec(sign: &Sign) -> i128 {
        sign.spec_normal() as i128
    }
}

impl From<&Sign> for i128 {
    fn from(sign: &Sign) -> (normal: i128)
        ensures
            normal == sign.spec_normal() as i128,
    {
        match sign {
            Sign::Positive => 1,
            Sign::Negative => -1,
        }
    }
}

impl FromSpecImpl<&Sign> for isize {
    open spec fn obeys_from_spec() -> bool {
        true
    }

    open spec fn from_spec(sign: &Sign) -> isize {
        sign.spec_normal() as isize
    }
}

impl From<&Sign> for isize {
    fn from(sign: &Sign) -> (normal: isize)
        ensures
            normal == sign.spec_normal() as isize,
    {
        match sign {
            Sign::Positive => 1,
            Sign::Negative => -1,
        }
    }
}

} // verus!
