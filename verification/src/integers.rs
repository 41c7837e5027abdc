//! Integers in decimal notation.
//!
//! An unsigned integer is written as one or more digits. A signed integer may have a `+`
//! or a `-` before its digits. A number that its type cannot hold is consumed as far as
//! its digits go and then rejected as an invalid value at the index where it began.

use vstd::prelude::*;
use crate::common::{Digit, OneOrMore, Sign};
use crate::consumable::{Consumable, Outcome, Text};
use crate::error::{Cause, ConsumeError, ConsumeErrorType};

verus! {

/// The number that `digits` are the decimal notation of.
pub open spec fn decimal(digits: Seq<Digit>) -> nat
    decreases digits.len(),
{
    if digits.len() == 0 {
        0
    } else {
        decimal(digits.drop_last()) * 10 + digits.last().spec_value()
    }
}

/// One more digit multiplies what the digits before it stand for by ten and adds its own
/// value.
pub proof fn lemma_decimal_step(digits: Seq<Digit>, i: int)
    requires
        0 <= i < digits.len(),
    ensures
        decimal(digits.take(i + 1)) == decimal(digits.take(i)) * 10 + digits[i].spec_value(),
{
    assert(digits.take(i + 1).drop_last() =~= digits.take(i));
}

/// The digits read so far never stand for more than all of them do.
pub proof fn lemma_decimal_monotone(digits: Seq<Digit>, i: int)
    requires
        0 <= i <= digits.len(),
    ensures
        decimal(digits.take(i)) <= decimal(digits),
    decreases digits.len() - i,
{
    if i == digits.len() {
        assert(digits.take(i) =~= digits);
    } else {
        lemma_decimal_step(digits, i);
        lemma_decimal_monotone(digits, i + 1);
    }
}

/// What consuming an unsigned integer of at most `max` comes to: the failure of its first
/// digit, or the number that its digits stand for, or an invalid value at index 0 where
/// that number is more than `max`.
pub open spec fn spec_consume_unsigned(source: Text, max: nat) -> Outcome<nat> {
    match <OneOrMore<Digit>>::spec_consume(source) {
        Ok((digits, count)) => if decimal(digits) <= max {
            Ok((decimal(digits), count))
        } else {
            Err(seq![Cause::InvalidValue { index: 0 }])
        },
        Err(causes) => Err(causes),
    }
}

/// What consuming a signed integer between `min` and `max` comes to: the failure of its
/// first digit, moved behind the sign where there is one, or the number that the sign and
/// the digits stand for, or an invalid value at index 0 where that number is less than `min`
/// or more than `max`.
pub open spec fn spec_consume_signed(source: Text, min: int, max: int) -> Outcome<int> {
    match <(Sign, OneOrMore<Digit>)>::spec_consume(source) {
        Ok(((sign, digits), count)) => {
            let number = sign.spec_normal() * decimal(digits);
            if min <= number <= max {
                Ok((number, count))
            } else {
                Err(seq![Cause::InvalidValue { index: 0 }])
            }
        },
        Err(causes) => Err(causes),
    }
}

/// An unsigned integer stays inside the source.
pub proof fn lemma_unsigned_fits(source: Text, max: nat)
    ensures
        crate::consumable::outcome_fits(spec_consume_unsigned(source, max), source.len()),
{
    <OneOrMore<Digit>>::lemma_outcome_fits(source);
}

/// A signed integer stays inside the source.
pub proof fn lemma_signed_fits(source: Text, min: int, max: int)
    ensures
        crate::consumable::outcome_fits(spec_consume_signed(source, min, max), source.len()),
{
    <(Sign, OneOrMore<Digit>)>::lemma_outcome_fits(source);
}

/// Consumes an unsigned integer of at most `max` from the start of `source`.
pub fn consume_unsigned(source: &str, max: u128) -> (result: Result<(u128, &str), ConsumeError>)
    ensures
        match spec_consume_unsigned(source@, max as nat) {
            Ok((number, count)) => result matches Ok((value, rest)) && value == number && count
                <= source@.len() && rest@ == source@.skip(count as int),
            Err(causes) => result matches Err(error) && error@ == causes,
        },
{
    proof {
        lemma_unsigned_fits(source@, max as nat);
    }
    let (digits, unconsumed) = <OneOrMore<Digit>>::consume_from(source)?;
    let ghost written = <OneOrMore<Digit>>::spec_consume(source@)->Ok_0.0;
    let digits = digits.into_vec();
    let mut num: u128 = 0;
    let mut i: usize = 0;
    while i < digits.len()
        invariant
            i <= digits.len(),
            digits@ == written,
            <OneOrMore<Digit>>::spec_consume(source@) is Ok,
            written == <OneOrMore<Digit>>::spec_consume(source@)->Ok_0.0,
            num == decimal(written.take(i as int)),
            num <= max,
        decreases digits.len() - i,
    {
        let digit: u128 = digits[i].value();
        proof {
            lemma_decimal_step(written, i as int);
            lemma_decimal_monotone(written, i as int + 1);
        }
        let next = match num.checked_mul(10) {
            Some(tenfold) => tenfold.checked_add(digit),
            None => None,
        };
        match next {
            Some(next) => {
                if next > max {
                    return Err(
                        ConsumeError::new_with(ConsumeErrorType::InvalidValue { index: 0 }),
                    );
                }
                num = next;
            },
            None => {
                return Err(ConsumeError::new_with(ConsumeErrorType::InvalidValue { index: 0 }));
            },
        }
        i += 1;
    }
    assert(written.take(i as int) =~= written);
    Ok((num, unconsumed))
}

/// Consumes a signed integer between `min` and `max` from the start of `source`.
pub fn consume_signed(source: &str, min: i128, max: i128) -> (result: Result<
    (i128, &str),
    ConsumeError,
>)
    ensures
        match spec_consume_signed(source@, min as int, max as int) {
            Ok((number, count)) => result matches Ok((value, rest)) && value == number && count
                <= source@.len() && rest@ == source@.skip(count as int),
            Err(causes) => result matches Err(error) && error@ == causes,
        },
{
    proof {
        lemma_signed_fits(source@, min as int, max as int);
    }
    let ((sign, digits), unconsumed) = <(Sign, OneOrMore<Digit>)>::consume_from(source)?;
    let ghost written = <(Sign, OneOrMore<Digit>)>::spec_consume(source@)->Ok_0.0.1;
    let digits = digits.into_vec();
    let normal: i128 = sign.normal();
    let mut num: i128 = 0;
    let mut i: usize = 0;
    while i < digits.len()
        invariant
            i <= digits.len(),
            digits@ == written,
            <(Sign, OneOrMore<Digit>)>::spec_consume(source@) is Ok,
            written == <(Sign, OneOrMore<Digit>)>::spec_consume(source@)->Ok_0.0.1,
            sign == <(Sign, OneOrMore<Digit>)>::spec_consume(source@)->Ok_0.0.0,
            normal == sign.spec_normal(),
            num == normal * decimal(written.take(i as int)),
        decreases digits.len() - i,
    {
        let digit: i128 = normal * digits[i].value::<i128>();
        proof {
            lemma_decimal_step(written, i as int);
            lemma_decimal_monotone(written, i as int + 1);
            assert(normal * (decimal(written.take(i as int)) * 10 + written[i as int].spec_value())
                == num * 10 + digit) by (nonlinear_arith)
                requires
                    num == normal * decimal(written.take(i as int)),
                    digit == normal * written[i as int].spec_value(),
            ;
        }
        let next = match num.checked_mul(10) {
            Some(tenfold) => tenfold.checked_add(digit),
            None => None,
        };
        match next {
            Some(next) => {
                num = next;
            },
            None => {
                return Err(ConsumeError::new_with(ConsumeErrorType::InvalidValue { index: 0 }));
            },
        }
        i += 1;
    }
    assert(written.take(i as int) =~= written);
    if num < min || num > max {
        return Err(ConsumeError::new_with(ConsumeErrorType::InvalidValue { index: 0 }));
    }
    Ok((num, unconsumed))
}

impl Consumable for u8 {
    type Model = u8;

    open spec fn model(&self) -> u8 {
        *self
    }

    open spec fn spec_consume(source: Text) -> Outcome<u8> {
        match spec_consume_unsigned(source, u8::MAX as nat) {
            Ok((number, count)) => Ok((number as u8, count)),
            Err(causes) => Err(causes),
        }
    }

    proof fn lemma_outcome_fits(source: Text) {
        lemma_unsigned_fits(source, u8::MAX as nat);
    }

    fn consume_from(source: &str) -> (result: Result<(Self, &str), ConsumeError>) {
        proof {
            Self::lemma_outcome_fits(source@);
        }
        let (number, unconsumed) = consume_unsigned(source, u8::MAX as u128)?;
        Ok((number as u8, unconsumed))
    }
}

impl Consumable for u16 {
    type Model = u16;

    open spec fn model(&self) -> u16 {
        *self
    }

    open spec fn spec_consume(source: Text) -> Outcome<u16> {
        match spec_consume_unsigned(source, u16::MAX as nat) {
            Ok((number, count)) => Ok((number as u16, count)),
            Err(causes) => Err(causes),
        }
    }

    proof fn lemma_outcome_fits(source: Text) {
        lemma_unsigned_fits(source, u16::MAX as nat);
    }

    fn consume_from(source: &str) -> (result: Result<(Self, &str), ConsumeError>) {
        proof {
            Self::lemma_outcome_fits(source@);
        }
        let (number, unconsumed) = consume_unsigned(source, u16::MAX as u128)?;
        Ok((number as u16, unconsumed))
    }
}

impl Consumable for u32 {
    type Model = u32;

    open spec fn model(&self) -> u32 {
        *self
    }

    open spec fn spec_consume(source: Text) -> Outcome<u32> {
        match spec_consume_unsigned(source, u32::MAX as nat) {
            Ok((number, count)) => Ok((number as u32, count)),
            Err(causes) => Err(causes),
        }
    }

    proof fn lemma_outcome_fits(source: Text) {
        lemma_unsigned_fits(source, u32::MAX as nat);
    }

    fn consume_from(source: &str) -> (result: Result<(Self, &str), ConsumeError>) {
        proof {
            Self::lemma_outcome_fits(source@);
        }
        let (number, unconsumed) = consume_unsigned(source, u32::MAX as u128)?;
        Ok((number as u32, unconsumed))
    }
}

impl Consumable for u64 {
    type Model = u64;

    open spec fn model(&self) -> u64 {
        *self
    }

    open spec fn spec_consume(source: Text) -> Outcome<u64> {
        match spec_consume_unsigned(source, u64::MAX as nat) {
            Ok((number, count)) => Ok((number as u64, count)),
            Err(causes) => Err(causes),
        }
    }

    proof fn lemma_outcome_fits(source: Text) {
        lemma_unsigned_fits(source, u64::MAX as nat);
    }

    fn consume_from(source: &str) -> (result: Result<(Self, &str), ConsumeError>) {
        proof {
            Self::lemma_outcome_fits(source@);
        }
        let (number, unconsumed) = consume_unsigned(source, u64::MAX as u128)?;
        Ok((number as u64, unconsumed))
    }
}

impl Consumable for u128 {
    type Model = u128;

    open spec fn model(&self) -> u128 {
        *self
    }

    open spec fn spec_consume(source: Text) -> Outcome<u128> {
        match spec_consume_unsigned(source, u128::MAX as nat) {
            Ok((number, count)) => Ok((number as u128, count)),
            Err(causes) => Err(causes),
        }
    }

    proof fn lemma_outcome_fits(source: Text) {
        lemma_unsigned_fits(source, u128::MAX as nat);
    }

    fn consume_from(source: &str) -> (result: Result<(Self, &str), ConsumeError>) {
        proof {
            Self::lemma_outcome_fits(source@);
        }
        let (number, unconsumed) = consume_unsigned(source, u128::MAX as u128)?;
        Ok((number as u128, unconsumed))
    }
}

impl Consumable for usize {
    type Model = usize;

    open spec fn model(&self) -> usize {
        *self
    }

    open spec fn spec_consume(source: Text) -> Outcome<usize> {
        match spec_consume_unsigned(source, usize::MAX as nat) {
            Ok((number, count)) => Ok((number as usize, count)),
            Err(causes) => Err(causes),
        }
    }

    proof fn lemma_outcome_fits(source: Text) {
        lemma_unsigned_fits(source, usize::MAX as nat);
    }

    fn consume_from(source: &str) -> (result: Result<(Self, &str), ConsumeError>) {
        proof {
            Self::lemma_outcome_fits(source@);
        }
        let (number, unconsumed) = consume_unsigned(source, usize::MAX as u128)?;
        Ok((number as usize, unconsumed))
    }
}

impl Consumable for i8 {
    type Model = i8;

    open spec fn model(&self) -> i8 {
        *self
    }

    open spec fn spec_consume(source: Text) -> Outcome<i8> {
        match spec_consume_signed(source, i8::MIN as int, i8::MAX as int) {
            Ok((number, count)) => Ok((number as i8, count)),
            Err(causes) => Err(causes),
        }
    }

    proof fn lemma_outcome_fits(source: Text) {
        lemma_signed_fits(source, i8::MIN as int, i8::MAX as int);
    }

    fn consume_from(source: &str) -> (result: Result<(Self, &str), ConsumeError>) {
        proof {
            Self::lemma_outcome_fits(source@);
        }
        let (number, unconsumed) = consume_signed(source, i8::MIN as i128, i8::MAX as i128)?;
        Ok((number as i8, unconsumed))
    }
}

impl Consumable for i16 {
    type Model = i16;

    open spec fn model(&self) -> i16 {
        *self
    }

    open spec fn spec_consume(source: Text) -> Outcome<i16> {
        match spec_consume_signed(source, i16::MIN as int, i16::MAX as int) {
            Ok((number, count)) => Ok((number as i16, count)),
            Err(causes) => Err(causes),
        }
    }

    proof fn lemma_outcome_fits(source: Text) {
        lemma_signed_fits(source, i16::MIN as int, i16::MAX as int);
    }

    fn consume_from(source: &str) -> (result: Result<(Self, &str), ConsumeError>) {
        proof {
            Self::lemma_outcome_fits(source@);
        }
        let (number, unconsumed) = consume_signed(source, i16::MIN as i128, i16::MAX as i128)?;
        Ok((number as i16, unconsumed))
    }
}

impl Consumable for i32 {
    type Model = i32;

    open spec fn model(&self) -> i32 {
        *self
    }

    open spec fn spec_consume(source: Text) -> Outcome<i32> {
        match spec_consume_signed(source, i32::MIN as int, i32::MAX as int) {
            Ok((number, count)) => Ok((number as i32, count)),
            Err(causes) => Err(causes),
        }
    }

    proof fn lemma_outcome_fits(source: Text) {
        lemma_signed_fits(source, i32::MIN as int, i32::MAX as int);
    }

    fn consume_from(source: &str) -> (result: Result<(Self, &str), ConsumeError>) {
        proof {
            Self::lemma_outcome_fits(source@);
        }
        let (number, unconsumed) = consume_signed(source, i32::MIN as i128, i32::MAX as i128)?;
        Ok((number as i32, unconsumed))
    }
}

impl Consumable for i64 {
    type Model = i64;

    open spec fn model(&self) -> i64 {
        *self
    }

    open spec fn spec_consume(source: Text) -> Outcome<i64> {
        match spec_consume_signed(source, i64::MIN as int, i64::MAX as int) {
            Ok((number, count)) => Ok((number as i64, count)),
            Err(causes) => Err(causes),
        }
    }

    proof fn lemma_outcome_fits(source: Text) {
        lemma_signed_fits(source, i64::MIN as int, i64::MAX as int);
    }

    fn consume_from(source: &str) -> (result: Result<(Self, &str), ConsumeError>) {
        proof {
            Self::lemma_outcome_fits(source@);
        }
        let (number, unconsumed) = consume_signed(source, i64::MIN as i128, i64::MAX as i128)?;
        Ok((number as i64, unconsumed))
    }
}

impl Consumable for i128 {
    type Model = i128;

    open spec fn model(&self) -> i128 {
        *self
    }

    open spec fn spec_consume(source: Text) -> Outcome<i128> {
        match spec_consume_signed(source, i128::MIN as int, i128::MAX as int) {
            Ok((number, count)) => Ok((number as i128, count)),
            Err(causes) => Err(causes),
        }
    }

    proof fn lemma_outcome_fits(source: Text) {
        lemma_signed_fits(source, i128::MIN as int, i128::MAX as int);
    }

    fn consume_from(source: &str) -> (result: Result<(Self, &str), ConsumeError>) {
        proof {
            Self::lemma_outcome_fits(source@);
        }
        let (number, unconsumed) = consume_signed(source, i128::MIN as i128, i128::MAX as i128)?;
        Ok((number as i128, unconsumed))
    }
}

impl Consumable for isize {
    type Model = isize;

    open spec fn model(&self) -> isize {
        *self
    }

    open spec fn spec_consume(source: Text) -> Outcome<isize> {
        match spec_consume_signed(source, isize::MIN as int, isize::MAX as int) {
            Ok((number, count)) => Ok((number as isize, count)),
            Err(causes) => Err(causes),
        }
    }

    proof fn lemma_outcome_fits(source: Text) {
        lemma_signed_fits(source, isize::MIN as int, isize::MAX as int);
    }

    fn consume_from(source: &str) -> (result: Result<(Self, &str), ConsumeError>) {
        proof {
            Self::lemma_outcome_fits(source@);
        }
        let (number, unconsumed) = consume_signed(source, isize::MIN as i128, isize::MAX as i128)?;
        Ok((number as isize, unconsumed))
    }
}

} // verus!
