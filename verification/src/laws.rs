//! What holds of every consumption, whatever the types that take part in it.

use vstd::prelude::*;
use crate::chars::Token;
use crate::common::{Digit, Whitespace};
use crate::consumable::{Consumable, Text};
use crate::either::Either;
use crate::error::Cause;
use crate::one_or_more::OneOrMore;

verus! {

/// What a successful consumption leaves unconsumed is a suffix of the source, and never
/// longer than the source.
pub proof fn lemma_remainder_is_suffix<T: Consumable>(source: Text)
    ensures
        T::spec_consume(source) matches Ok((_, count)) ==> {
            &&& count <= source.len()
            &&& source.skip(count as int).is_suffix_of(source)
            &&& source.skip(count as int).len() <= source.len()
        },
{
    T::lemma_outcome_fits(source);
    match T::spec_consume(source) {
        Ok((_, count)) => {
        },
        Err(_) => {},
    }
}

/// A failed consumption names at least one cause, and every cause lies inside the source
/// or at its end.
pub proof fn lemma_failure_has_causes<T: Consumable>(source: Text)
    ensures
        T::spec_consume(source) matches Err(causes) ==> {
            &&& causes.len() >= 1
            &&& forall|i: int| 0 <= i < causes.len() ==> (#[trigger] causes[i]).index() <= source.len()
        },
{
    T::lemma_outcome_fits(source);
}

/// A repetition comes to an end: it yields no more items than the source has characters,
/// since every item that it keeps took at least one, and it consumes no more than the
/// source holds.
pub proof fn lemma_repetition_is_finite<T: Consumable>(source: Text)
    ensures
        crate::consumable::spec_repeat::<T>(source).0.len() <= crate::consumable::spec_repeat::<T>(
            source,
        ).1,
        crate::consumable::spec_repeat::<T>(source).1 <= source.len(),
        <Vec<T>>::spec_consume(source) is Ok,
{
    crate::consumable::lemma_repeat_fits::<T>(source);
}

/// The tokens that grammars are made of take at least one character whenever they are
/// consumed: a character, a digit, a white space, and every literal that is not empty.
pub proof fn lemma_tokens_advance(text: Seq<char>, source: Text)
    ensures
        crate::consumable::always_advances::<char>(),
        crate::consumable::always_advances::<Digit>(),
        crate::consumable::always_advances::<Whitespace>(),
        crate::literal::spec_consume_literal(text, source) matches Ok(count) ==> count
            == text.len(),
{
}

/// A character as a type takes its one character whenever it is consumed.
pub proof fn lemma_token_advances<const CODE: u8>()
    ensures
        crate::consumable::always_advances::<Token<CODE>>(),
{
    assert forall|source: Text| #[trigger] <Token<CODE>>::spec_consume(source) is Ok implies <Token<
        CODE,
    >>::spec_consume(source)->Ok_0.1 > 0 by {
        crate::literal::lemma_literal_fits(seq![<Token<CODE>>::spec_char()], source);
    }
}

/// One or more of an item that always takes a character take at least one character.
pub proof fn lemma_one_or_more_advances<T: Consumable>()
    requires
        crate::consumable::always_advances::<T>(),
    ensures
        crate::consumable::always_advances::<OneOrMore<T>>(),
{
}

/// Shifting twice is shifting once by the sum: an error that passes through two enclosing
/// sequences is moved by what both had consumed.
pub proof fn lemma_shift_all_twice(causes: Seq<Cause>, first: nat, second: nat)
    ensures
        crate::error::shift_all(crate::error::shift_all(causes, first), second)
            == crate::error::shift_all(causes, first + second),
{
}

/// Shifting the causes of two failures put together is putting together the shifted ones:
/// the merged failure of a choice is moved as its parts are.
pub proof fn lemma_shift_all_concat(left: Seq<Cause>, right: Seq<Cause>, by: nat)
    ensures
        crate::error::shift_all(left + right, by) == crate::error::shift_all(left, by)
            + crate::error::shift_all(right, by),
{
}

/// In a sequence of two, where the first item is consumed from `count` characters and the
/// second fails, every cause of the sequence is a cause of the second item with its index
/// moved by `count`: moved once, neither left as it was nor moved twice.
pub proof fn lemma_offset_applied_once<A: Consumable, B: Consumable>(
    source: Text,
    count: nat,
    causes: Seq<Cause>,
)
    requires
        A::spec_consume(source) matches Ok((_, consumed)) && consumed == count,
        B::spec_consume(source.skip(count as int)) == Err::<(B::Model, nat), Seq<Cause>>(causes),
    ensures
        <(A, B)>::spec_consume(source) matches Err(reported) && {
            &&& reported.len() == causes.len()
            &&& forall|i: int|
                0 <= i < causes.len() ==> #[trigger] reported[i] == causes[i].shift(count)
            &&& forall|i: int|
                0 <= i < causes.len() ==> (#[trigger] reported[i]).index() == causes[i].index()
                    + count
        },
{
}

/// In a sequence inside a sequence, where the two items before the third are consumed from
/// `first` and `second` characters and the third fails, every cause is moved by `first +
/// second`: once for each of the two sequences that it passes through, and by what each of
/// them had consumed.
pub proof fn lemma_offset_through_nesting<A: Consumable, B: Consumable, C: Consumable>(
    source: Text,
    first: nat,
    second: nat,
    causes: Seq<Cause>,
)
    requires
        A::spec_consume(source) matches Ok((_, consumed)) && consumed == first,
        B::spec_consume(source.skip(first as int)) matches Ok((_, consumed)) && consumed
            == second,
        first + second <= source.len(),
        C::spec_consume(source.skip((first + second) as int)) == Err::<
            (C::Model, nat),
            Seq<Cause>,
        >(causes),
    ensures
        <(A, (B, C))>::spec_consume(source) == Err::<
            ((A::Model, (B::Model, C::Model)), nat),
            Seq<Cause>,
        >(crate::error::shift_all(causes, first + second)),
        <(A, B, C)>::spec_consume(source) == Err::<
            ((A::Model, B::Model, C::Model), nat),
            Seq<Cause>,
        >(crate::error::shift_all(causes, first + second)),
{
    assert(source.skip(first as int).skip(second as int) =~= source.skip(
        (first + second) as int,
    ));
    lemma_shift_all_twice(causes, second, first);
}

/// Where the first alternative fails, the second is tried on the source as it was given:
/// what the choice comes to is what the second alternative comes to on that very source,
/// however far the first had come before it failed.
pub proof fn lemma_either_restarts<A: Consumable, B: Consumable>(source: Text)
    requires
        A::spec_consume(source) is Err,
    ensures
        match B::spec_consume(source) {
            Ok((value, count)) => <Either<A, B>>::spec_consume(source) == Ok::<
                (Either<A::Model, B::Model>, nat),
                Seq<Cause>,
            >((Either::Right(value), count)),
            Err(_) => <Either<A, B>>::spec_consume(source) is Err,
        },
{
}

/// Where both alternatives fail, the failure of the choice holds the causes of the first
/// alternative and then those of the second, each in its order and none left out.
pub proof fn lemma_either_merges<A: Consumable, B: Consumable>(source: Text)
    requires
        A::spec_consume(source) is Err,
        B::spec_consume(source) is Err,
    ensures
        <Either<A, B>>::spec_consume(source) matches Err(merged) && {
            let first = A::spec_consume(source)->Err_0;
            let second = B::spec_consume(source)->Err_0;
            &&& merged == first + second
            &&& merged.len() == first.len() + second.len()
            &&& forall|i: int| 0 <= i < first.len() ==> merged[i] == first[i]
            &&& forall|i: int| 0 <= i < second.len() ==> merged[first.len() + i] == second[i]
        },
{
}

/// Where the item that ends at `ends[i]` begins: at the start of the source, or where the
/// item before it ends.
pub open spec fn begin_of(ends: Seq<nat>, i: int) -> nat {
    if i == 0 {
        0
    } else {
        ends[i - 1]
    }
}

/// `source` holds the item `values[i]` in the characters from `begin_of(ends, i)` up to
/// `ends[i]`: the item is consumed from exactly these characters, which are at least one.
pub open spec fn holds_item<T: Consumable>(
    source: Text,
    values: Seq<T::Model>,
    ends: Seq<nat>,
    i: int,
) -> bool {
    &&& begin_of(ends, i) < ends[i] <= source.len()
    &&& T::spec_consume(source.skip(begin_of(ends, i) as int)) == Ok::<
        (T::Model, nat),
        Seq<Cause>,
    >((values[i], (ends[i] - begin_of(ends, i)) as nat))
}

/// `source` holds the items `values` one after the other, and no further item can be
/// consumed behind the last of them.
pub open spec fn holds_items<T: Consumable>(
    source: Text,
    values: Seq<T::Model>,
    ends: Seq<nat>,
) -> bool {
    &&& ends.len() == values.len()
    &&& forall|i: int| 0 <= i < values.len() ==> #[trigger] holds_item::<T>(source, values, ends, i)
    &&& values.len() > 0 ==> T::spec_consume(source.skip(ends.last() as int)) is Err
}

/// A repetition on a source that holds the items from `from` on, and no further one,
/// yields exactly those items.
proof fn lemma_repeat_round_trip<T: Consumable>(
    source: Text,
    values: Seq<T::Model>,
    ends: Seq<nat>,
    from: int,
)
    requires
        values.len() >= 1,
        holds_items::<T>(source, values, ends),
        1 <= from <= values.len(),
    ensures
        ends[from - 1] <= ends.last(),
        crate::consumable::spec_repeat::<T>(source.skip(ends[from - 1] as int)) == (
            values.skip(from),
            (ends.last() - ends[from - 1]) as nat,
        ),
    decreases values.len() - from,
{
    let begin = ends[from - 1];
    let rest = source.skip(begin as int);
    if from < values.len() {
        assert(holds_item::<T>(source, values, ends, from));
        let count = (ends[from] - begin) as nat;
        assert(rest.skip(count as int) =~= source.skip(ends[from] as int));
        lemma_repeat_round_trip::<T>(source, values, ends, from + 1);
    }
}

/// One or more items that stand one after the other are consumed as exactly those items,
/// in their order, and what follows the last of them is left unconsumed.
pub proof fn lemma_one_or_more_round_trip<T: Consumable>(
    source: Text,
    values: Seq<T::Model>,
    ends: Seq<nat>,
)
    requires
        values.len() >= 1,
        holds_items::<T>(source, values, ends),
    ensures
        <OneOrMore<T>>::spec_consume(source) == Ok::<(Seq<T::Model>, nat), Seq<Cause>>(
            (values, ends.last()),
        ),
{
    assert(holds_item::<T>(source, values, ends, 0));
    assert(source.skip(0) =~= source);
    lemma_repeat_round_trip::<T>(source, values, ends, 1);
    assert(seq![values[0]] + values.skip(1) =~= values);
}

} // verus!
