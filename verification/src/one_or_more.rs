//! One or more items in a row.

use vstd::prelude::*;
use crate::consumable::{Consumable, Outcome, Text};
use crate::error::ConsumeError;

verus! {

/// One or more items of type `T`, in the order in which they were consumed: the `+` of a
/// regular expression.
///
/// Consuming fails where not even one item can be consumed, with the error of that item.
#[derive(Debug)]
pub struct OneOrMore<T> {
    /// The item that is there in any case.
    head: T,
    /// The items after it, of which there may be none.
    tail: Vec<T>,
}

impl<T> View for OneOrMore<T> {
    type V = Seq<T>;

    closed spec fn view(&self) -> Seq<T> {
        seq![self.head] + self.tail@
    }
}

impl<T> OneOrMore<T> {
    /// There is at least one item.
    pub proof fn lemma_not_empty(&self)
        ensures
            self@.len() >= 1,
    {
    }

    /// The first item.
    pub fn head(&self) -> (head: &T)
        ensures
            *head == self@[0],
    {
        &self.head
    }

    /// The items after the first, in order. There may be none.
    pub fn tail(&self) -> (tail: &Vec<T>)
        ensures
            tail@ == self@.skip(1),
    {
        &self.tail
    }

    /// Gives up `self` for a vector that owns all of its items, in order.
    pub fn into_vec(self) -> (items: Vec<T>)
        ensures
            items@ == self@,
    {
        let OneOrMore { head, tail } = self;
        let mut vec: Vec<T> = Vec::new();
        vec.push(head);
        let mut tail = tail;
        vec.append(&mut tail);
        vec
    }

    /// A vector of references to the items, in order.
    pub fn ref_vec(&self) -> (items: Vec<&T>)
        ensures
            items@.len() == self@.len(),
            forall|i: int| 0 <= i < items@.len() ==> *(#[trigger] items@[i]) == self@[i],
    {
        let mut vec: Vec<&T> = Vec::new();
        vec.push(&self.head);
        let mut i: usize = 0;
        while i < self.tail.len()
            invariant
                i <= self.tail.len(),
                vec@.len() == i + 1,
                forall|j: int| 0 <= j < vec@.len() ==> *(#[trigger] vec@[j]) == self@[j],
            decreases self.tail.len() - i,
        {
            vec.push(&self.tail[i]);
            i += 1;
        }
        vec
    }
}

/// `<[T]>::split_first_mut` parts a slice into its first item and the items after it,
/// each to be changed in place, or gives nothing for an empty slice. What the slice holds
/// in the end is what the two parts hold in the end.
#[verifier::external_body]
fn split_first_mut<'a, T>(items: &'a mut [T]) -> (parts: Option<(&'a mut T, &'a mut [T])>)
    ensures
        old(items)@.len() == 0 ==> parts is None && final(items)@ == old(items)@,
        old(items)@.len() > 0 ==> (parts matches Some((first, rest)) && *first == old(items)@[0]
            && rest@ == old(items)@.skip(1) && final(items)@ == seq![*final(first)] + final(rest)@),
{
    items.split_first_mut()
}

impl<T> OneOrMore<T> {
    /// A vector of references to the items, in order, through which each can be changed in
    /// place.
    pub fn mut_vec(&mut self) -> (items: Vec<&mut T>)
        ensures
            items@.len() == old(self)@.len(),
            forall|i: int| 0 <= i < items@.len() ==> *(#[trigger] items@[i]) == old(self)@[i],
            final(self)@.len() == old(self)@.len(),
            forall|i: int|
                0 <= i < items@.len() ==> final(self)@[i] == *final(#[trigger] items@[i]),
    {
        let mut vec: Vec<&mut T> = Vec::new();
        let ghost before = old(self).tail@;
        let ghost end = *final(self);
        vec.push(&mut self.head);
        let mut rest: &mut [T] = self.tail.as_mut_slice();
        let ghost mut taken: int = 0;
        loop
            invariant
                0 <= taken <= before.len(),
                vec@.len() == taken + 1,
                *vec@[0] == old(self).head,
                forall|i: int| 0 <= i < taken ==> *(#[trigger] vec@[i + 1]) == before[i],
                rest@ == before.skip(taken),
                end.head == *final(vec@[0]),
                end.tail@ == Seq::new(taken as nat, |i: int| *final(vec@[i + 1])) + final(rest)@,
            ensures
                taken == before.len(),
                vec@.len() == taken + 1,
                *vec@[0] == old(self).head,
                forall|i: int| 0 <= i < taken ==> *(#[trigger] vec@[i + 1]) == before[i],
                end.head == *final(vec@[0]),
                end.tail@ == Seq::new(taken as nat, |i: int| *final(vec@[i + 1])),
            decreases rest@.len(),
        {
            let current = rest;
            match split_first_mut(current) {
                Some((first, more)) => {
                    vec.push(first);
                    rest = more;
                    proof {
                        taken = taken + 1;
                    }
                },
                None => {
                    break ;
                },
            }
        }
        proof {
            assert forall|i: int| 0 <= i < vec@.len() implies *(#[trigger] vec@[i]) == old(self)@[i] by {
                if i > 0 {
                    assert(*vec@[(i - 1) + 1] == before[i - 1]);
                }
            }
            assert forall|i: int| 0 <= i < vec@.len() implies end@[i] == *final(#[trigger] vec@[i]) by {}
        }
        vec
    }
}

impl<T> IntoIterator for OneOrMore<T> {
    type Item = T;

    type IntoIter = std::vec::IntoIter<T>;

    /// Goes through the items in order, the first one first.
    fn into_iter(self) -> (iter: std::vec::IntoIter<T>)
        ensures
            vstd::std_specs::vec::into_iter_elts(iter) == self@,
    {
        self.into_vec().into_iter()
    }
}

/// What consuming one or more `T` comes to: the failure of the first item, or the items
/// that are consumed one after the other until consuming the next one fails.
pub open spec fn spec_one_or_more<T: Consumable>(source: Text) -> Outcome<Seq<T::Model>> {
    match T::spec_consume(source) {
        Ok((value, count)) => {
            let (values, more) = crate::consumable::spec_repeat::<T>(source.skip(count as int));
            Ok((seq![value] + values, count + more))
        },
        Err(causes) => Err(causes),
    }
}

impl<T: Consumable> Consumable for OneOrMore<T> {
    type Model = Seq<T::Model>;

    open spec fn model(&self) -> Seq<T::Model> {
        self@.map_values(|item: T| item.model())
    }

    open spec fn spec_consume(source: Text) -> Outcome<Seq<T::Model>> {
        spec_one_or_more::<T>(source)
    }

    proof fn lemma_outcome_fits(source: Text) {
        T::lemma_outcome_fits(source);
        match T::spec_consume(source) {
            Ok((value, count)) => {
                crate::consumable::lemma_repeat_fits::<T>(source.skip(count as int));
            },
            Err(_) => {},
        }
    }

    fn consume_from(source: &str) -> (result: Result<(Self, &str), ConsumeError>) {
        proof {
            Self::lemma_outcome_fits(source@);
        }
        let (head, unconsumed) = T::consume_from(source)?;
        let ghost count = T::spec_consume(source@)->Ok_0.1;
        let (tail, unconsumed) = <Vec<T>>::consume_from(unconsumed)?;
        let items = OneOrMore { head, tail };
        proof {
            let more = crate::consumable::spec_repeat::<T>(source@.skip(count as int)).1;
            assert(items.model() =~= seq![head.model()] + tail.model());
        }
        Ok((items, unconsumed))
    }
}

} // verus!
