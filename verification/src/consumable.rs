//! The consumption protocol: what it means to consume a value of a type from a text.

use vstd::prelude::*;
use crate::error::{Cause, ConsumeError};
use crate::iter::ConsumeIter;

verus! {

/// A text, mathematically: its characters, one after the other.
pub type Text = Seq<char>;

/// What consuming from a text comes to, mathematically: either a value together with the
/// number of characters that were consumed for it, or the causes of the failure.
pub type Outcome<M> = Result<(M, nat), Seq<Cause>>;

/// `outcome` can come of consuming from a text of `len` characters: a success consumed no
/// more than the text holds, and a failure has at least one cause, each of them at an index
/// inside the text or at its end.
pub open spec fn outcome_fits<M>(outcome: Outcome<M>, len: nat) -> bool {
    match outcome {
        Ok((_, count)) => count <= len,
        Err(causes) => causes.len() > 0 && crate::error::all_within(causes, len),
    }
}

/// A type of which a value can be consumed from the start of a text.
///
/// To implement it is to say three things: what an item of the type is, mathematically
/// (`Model` and `model`); what consuming from a sequence of characters comes to
/// (`spec_consume`), with the proof that this stays inside the sequence
/// (`lemma_outcome_fits`); and how it is done (`consume_from`), which Verus holds to what
/// `spec_consume` says. Code that Verus does not read has to give the first three as well,
/// but nothing ever calls them there: they can be left without a value.
pub trait Consumable: Sized {
    /// The mathematical value that an item of the type stands for.
    type Model;

    /// The mathematical value of `self`.
    spec fn model(&self) -> Self::Model;

    /// What consuming from `source` comes to.
    spec fn spec_consume(source: Text) -> Outcome<Self::Model>;

    /// The remainder of a successful consumption is a suffix of the source, and a failure
    /// names at least one cause, each inside the source.
    proof fn lemma_outcome_fits(source: Text)
        ensures
            outcome_fits(Self::spec_consume(source), source.len()),
    ;

    /// Consumes an item from the start of `source`. On success the item comes with the
    /// unconsumed rest of `source`; on failure the causes say why and where.
    fn consume_from(source: &str) -> (result: Result<(Self, &str), ConsumeError>)
        ensures
            match (result, Self::spec_consume(source@)) {
                (Ok((item, rest)), Ok((value, count))) => {
                    &&& item.model() == value
                    &&& count <= source@.len()
                    &&& rest@ == source@.skip(count as int)
                },
                (Err(error), Err(causes)) => error@ == causes,
                _ => false,
            },
            outcome_fits(Self::spec_consume(source@), source@.len()),
    ;

    /// Consumes an item from the start of `source`, as `consume_from` does, and counts the
    /// characters that were consumed for it: those that `source` holds and the rest does not.
    fn consume_how_many_from(source: &str) -> (result: Result<(Self, &str, usize), ConsumeError>)
        ensures
            match (result, Self::spec_consume(source@)) {
                (Ok((item, rest, amount)), Ok((value, count))) => {
                    &&& item.model() == value
                    &&& amount == count
                    &&& count <= source@.len()
                    &&& rest@ == source@.skip(count as int)
                },
                (Err(error), Err(causes)) => error@ == causes,
                _ => false,
            },
    {
        let start_len = utf8_slice::len(source);
        let (item, unconsumed) = Self::consume_from(source)?;
        let end_len = utf8_slice::len(unconsumed);
        Ok((item, unconsumed, start_len - end_len))
    }

    /// The items that can be consumed from `source` one after the other, to be asked for
    /// one at a time.
    fn consume_iter<'a>(source: &'a str) -> (iter: ConsumeIter<'a, Self>)
        ensures
            iter@ == source@,
    {
        ConsumeIter::new(source)
    }
}

/// Every successful consumption of a `T` takes at least one character.
pub open spec fn always_advances<T: Consumable>() -> bool {
    forall|source: Text|
        (#[trigger] T::spec_consume(source)) matches Ok((_, count)) ==> count > 0
}

/// The items that are consumed from `source` one after the other until consuming the next
/// one fails or takes no character, with the number of characters that they take together.
///
/// An item that takes no character ends the repetition and is not kept: it could be
/// consumed again and again, without end.
pub open spec fn spec_repeat<T: Consumable>(source: Text) -> (Seq<T::Model>, nat)
    decreases source.len(),
{
    match T::spec_consume(source) {
        Ok((value, count)) => if 0 < count <= source.len() {
            let (values, more) = spec_repeat::<T>(source.skip(count as int));
            (seq![value] + values, count + more)
        } else {
            (Seq::empty(), 0nat)
        },
        Err(_) => (Seq::empty(), 0nat),
    }
}

/// A repetition consumes no more than the source holds, and no more items than characters.
pub proof fn lemma_repeat_fits<T: Consumable>(source: Text)
    ensures
        spec_repeat::<T>(source).1 <= source.len(),
        spec_repeat::<T>(source).0.len() <= spec_repeat::<T>(source).1,
    decreases source.len(),
{
    match T::spec_consume(source) {
        Ok((value, count)) => if 0 < count <= source.len() {
            lemma_repeat_fits::<T>(source.skip(count as int));
        },
        Err(_) => {},
    }
}

/// Shifting the causes of a failure that arose `by` characters into a text of `len`
/// characters leaves them inside that text.
pub proof fn lemma_shift_within(causes: Seq<Cause>, by: nat, len: nat)
    requires
        by <= len,
        crate::error::all_within(causes, (len - by) as nat),
    ensures
        crate::error::all_within(crate::error::shift_all(causes, by), len),
        crate::error::shift_all(causes, by).len() == causes.len(),
{
    assert forall|i: int| 0 <= i < causes.len() implies (#[trigger] crate::error::shift_all(
        causes,
        by,
    )[i]).index() <= len by {
    }
}

/// What consuming a `B` comes to once `first` has come of the characters before it: the
/// two values and the characters of both, or the failure of the first, or else the failure
/// of `B`, moved by the characters that the first had consumed.
pub open spec fn spec_then<X, B: Consumable>(first: Outcome<X>, source: Text) -> Outcome<
    (X, B::Model),
> {
    match first {
        Ok((value, count)) => match B::spec_consume(source.skip(count as int)) {
            Ok((next, more)) => Ok(((value, next), count + more)),
            Err(causes) => Err(crate::error::shift_all(causes, count)),
        },
        Err(causes) => Err(causes),
    }
}

/// Consuming one thing after another stays inside the source.
pub proof fn lemma_then_fits<X, B: Consumable>(first: Outcome<X>, source: Text)
    requires
        outcome_fits(first, source.len()),
    ensures
        outcome_fits(spec_then::<X, B>(first, source), source.len()),
{
    match first {
        Ok((value, count)) => {
            B::lemma_outcome_fits(source.skip(count as int));
            match B::spec_consume(source.skip(count as int)) {
                Ok(_) => {},
                Err(causes) => {
                    lemma_shift_within(causes, count, source.len());
                },
            }
        },
        Err(_) => {},
    }
}

} // verus!
