//! The shape of a number with a fraction, before any arithmetic is done on it.

use vstd::prelude::*;
use crate::common::Sign;
use crate::consumable::{Consumable, Outcome, Text};
use crate::error::ConsumeError;
use crate::sequence::Steps;

verus! {

/// What a number with a fraction can be written as.
#[derive(Debug, PartialEq, Eq)]
pub enum FpCategory {
    /// The word `infinity`, in any mix of upper and lower case, behind its sign.
    Infinity(Sign),
    /// The word `nan`, in any mix of upper and lower case.
    NaN,
    /// The integer before the point and the integer after it.
    Normal(i64, i64),
}

/// `source` starts with the letters of `lower`, each of them either as `lower` has it or
/// as `upper` has it.
pub open spec fn starts_with_letters(source: Text, lower: Seq<char>, upper: Seq<char>) -> bool {
    &&& lower.len() <= source.len()
    &&& forall|i: int|
        0 <= i < lower.len() ==> source[i] == lower[i] || source[i] == #[trigger] upper[i]
}

/// The letters of `nan`.
pub open spec fn nan_lower() -> Seq<char> {
    seq!['n', 'a', 'n']
}

/// The letters of `NAN`.
pub open spec fn nan_upper() -> Seq<char> {
    seq!['N', 'A', 'N']
}

/// The letters of `infinity`.
pub open spec fn infinity_lower() -> Seq<char> {
    seq!['i', 'n', 'f', 'i', 'n', 'i', 't', 'y']
}

/// The letters of `INFINITY`.
pub open spec fn infinity_upper() -> Seq<char> {
    seq!['I', 'N', 'F', 'I', 'N', 'I', 'T', 'Y']
}

/// What consuming two integers with a point between them comes to, `before` characters
/// into the text that `source` is the rest of: every failure is moved by `before` and by
/// what the steps before it consumed.
pub open spec fn spec_consume_normal(source: Text, before: nat) -> Outcome<(i64, i64)> {
    match i64::spec_consume(source) {
        Ok((whole, first)) => match crate::literal::spec_consume_literal(
            seq!['.'],
            source.skip(first as int),
        ) {
            Ok(point) => match i64::spec_consume(source.skip((first + point) as int)) {
                Ok((fraction, last)) => Ok(((whole, fraction), before + first + point + last)),
                Err(causes) => Err(crate::error::shift_all(causes, before + first + point)),
            },
            Err(causes) => Err(crate::error::shift_all(causes, before + first)),
        },
        Err(causes) => Err(crate::error::shift_all(causes, before)),
    }
}

/// Whether `source` starts with the letters of `lower`, each in either case. `upper` holds
/// the same letters in upper case.
fn has_letters(source: &str, lower: &str, upper: &str) -> (found: bool)
    requires
        lower@.len() == upper@.len(),
    ensures
        found == starts_with_letters(source@, lower@, upper@),
{
    let mut unconsumed = source;
    let mut small = lower;
    let mut capital = upper;
    let mut index: usize = 0;
    crate::text::count_fits(source);
    loop
        invariant
            source@.len() <= usize::MAX,
            lower@.len() == upper@.len(),
            index <= lower@.len(),
            index <= source@.len(),
            unconsumed@ == source@.skip(index as int),
            small@ == lower@.skip(index as int),
            capital@ == upper@.skip(index as int),
            forall|i: int|
                0 <= i < index ==> source@[i] == lower@[i] || source@[i] == #[trigger] upper@[i],
        decreases lower@.len() - index,
    {
        match (crate::text::first_char(small), crate::text::first_char(capital)) {
            (Some(low), Some(high)) => {
                match crate::text::first_char(unconsumed) {
                    Some(token) => {
                        if token != low && token != high {
                            return false;
                        }
                    },
                    None => {
                        return false;
                    },
                }
            },
            _ => {
                return true;
            },
        }
        unconsumed = utf8_slice::from(unconsumed, 1);
        small = utf8_slice::from(small, 1);
        capital = utf8_slice::from(capital, 1);
        index += 1;
    }
}

/// Whether `source` starts with the word `nan`, in any mix of upper and lower case.
fn starts_with_nan(source: &str) -> (found: bool)
    ensures
        found == starts_with_letters(source@, nan_lower(), nan_upper()),
{
    proof {
        reveal_strlit("nan");
        reveal_strlit("NAN");
        assert("nan"@ =~= nan_lower());
        assert("NAN"@ =~= nan_upper());
    }
    has_letters(source, "nan", "NAN")
}

/// Whether `source` starts with the word `infinity`, in any mix of upper and lower case.
fn starts_with_infinity(source: &str) -> (found: bool)
    ensures
        found == starts_with_letters(source@, infinity_lower(), infinity_upper()),
{
    proof {
        reveal_strlit("infinity");
        reveal_strlit("INFINITY");
        assert("infinity"@ =~= infinity_lower());
        assert("INFINITY"@ =~= infinity_upper());
    }
    has_letters(source, "infinity", "INFINITY")
}

/// Two integers with a point between them stay inside the source, as do the causes for
/// which they fail.
proof fn lemma_normal_fits(source: Text, before: nat)
    ensures
        crate::consumable::outcome_fits(
            spec_consume_normal(source, before),
            before + source.len(),
        ),
{
    i64::lemma_outcome_fits(source);
    match i64::spec_consume(source) {
        Ok((whole, first)) => {
            let behind = source.skip(first as int);
            crate::literal::lemma_literal_fits(seq!['.'], behind);
            match crate::literal::spec_consume_literal(seq!['.'], behind) {
                Ok(point) => {
                    let last = source.skip((first + point) as int);
                    i64::lemma_outcome_fits(last);
                    match i64::spec_consume(last) {
                        Ok(_) => {},
                        Err(causes) => {
                            crate::consumable::lemma_shift_within(
                                causes,
                                before + first + point,
                                before + source.len(),
                            );
                        },
                    }
                },
                Err(causes) => {
                    crate::consumable::lemma_shift_within(
                        causes,
                        before + first,
                        before + source.len(),
                    );
                },
            }
        },
        Err(causes) => {
            crate::consumable::lemma_shift_within(causes, before, before + source.len());
        },
    }
}

/// The steps of a number in two integers: an integer, a point, an integer.
fn consume_normal(steps: &mut Steps) -> (result: Result<(i64, i64), ConsumeError>)
    ensures
        final(steps).source() == old(steps).source(),
        final(steps).consumed() <= final(steps).source().len(),
        match spec_consume_normal(old(steps).rest(), old(steps).consumed()) {
            Ok((numbers, count)) => result == Ok::<(i64, i64), ConsumeError>(numbers)
                && final(steps).consumed() == count,
            Err(causes) => result matches Err(error) && error@ == causes,
        },
{
    let ghost source = steps.source();
    let ghost before = steps.consumed();
    let whole = steps.typed::<i64>()?;
    let ghost first = (steps.consumed() - before) as nat;
    assert(source.skip(before as int).skip(first as int) =~= source.skip(
        (before + first) as int,
    ));
    steps.literal(&'.')?;
    let ghost point = (steps.consumed() - before - first) as nat;
    assert(source.skip(before as int).skip((first + point) as int) =~= source.skip(
        (before + first + point) as int,
    ));
    let fraction = steps.typed::<i64>()?;
    Ok((whole, fraction))
}

impl Consumable for FpCategory {
    type Model = FpCategory;

    open spec fn model(&self) -> FpCategory {
        *self
    }

    open spec fn spec_consume(source: Text) -> Outcome<FpCategory> {
        if starts_with_letters(source, nan_lower(), nan_upper()) {
            Ok((FpCategory::NaN, 3nat))
        } else {
            match Sign::spec_consume(source) {
                Ok((sign, signed)) => if starts_with_letters(
                    source.skip(signed as int),
                    infinity_lower(),
                    infinity_upper(),
                ) {
                    Ok((FpCategory::Infinity(sign), signed + 8))
                } else {
                    match spec_consume_normal(source.skip(signed as int), signed) {
                        Ok(((whole, fraction), count)) => Ok(
                            (FpCategory::Normal(whole, fraction), count),
                        ),
                        Err(causes) => Err(causes),
                    }
                },
                Err(causes) => Err(causes),
            }
        }
    }

    proof fn lemma_outcome_fits(source: Text) {
        let signed = Sign::spec_consume(source)->Ok_0.1;
        lemma_normal_fits(source.skip(signed as int), signed);
    }

    fn consume_from(source: &str) -> (result: Result<(Self, &str), ConsumeError>) {
        proof {
            Self::lemma_outcome_fits(source@);
        }
        if starts_with_nan(source) {
            return Ok((FpCategory::NaN, utf8_slice::from(source, 3)));
        }
        let mut steps = Steps::new(source);
        let sign = steps.typed::<Sign>()?;
        if starts_with_infinity(steps.unconsumed()) {
            assert(source@.skip(steps.consumed() as int).skip(8) =~= source@.skip(
                (steps.consumed() + 8) as int,
            ));
            return Ok((FpCategory::Infinity(sign), utf8_slice::from(steps.unconsumed(), 8)));
        }
        let (whole, fraction) = consume_normal(&mut steps)?;
        Ok((FpCategory::Normal(whole, fraction), steps.finish()))
    }
}

} // verus!
