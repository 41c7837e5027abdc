//! Matching a literal: a value with one textual form, such as a character or a fixed string.

use vstd::prelude::*;
use crate::error::{Cause, ConsumeError, ConsumeErrorType};

verus! {

/// The number of leading characters that `text` and `source` have in common.
pub open spec fn common_prefix_len(text: Seq<char>, source: Seq<char>) -> nat
    decreases text.len(),
{
    if text.len() > 0 && source.len() > 0 && text[0] == source[0] {
        1 + common_prefix_len(text.skip(1), source.skip(1))
    } else {
        0
    }
}

/// What matching the literal `text` at the start of `source` comes to: the number of
/// characters of `text` where `source` starts with it; else one cause at the first index at
/// which they part, which says whether `source` ended there or which character it holds.
pub open spec fn spec_consume_literal(text: Seq<char>, source: Seq<char>) -> Result<
    nat,
    Seq<Cause>,
> {
    let agreed = common_prefix_len(text, source);
    if agreed == text.len() {
        Ok(text.len())
    } else if agreed == source.len() {
        Err(seq![Cause::InsufficientTokens { index: agreed }])
    } else {
        Err(seq![Cause::UnexpectedToken { index: agreed, token: source[agreed as int] }])
    }
}

/// `text` and `source` hold the same characters at every index below `agreed`, and part at
/// `agreed` or one of them ends there: then `agreed` is the length of their common prefix.
pub proof fn lemma_common_prefix_len(text: Seq<char>, source: Seq<char>, agreed: nat)
    requires
        agreed <= text.len(),
        agreed <= source.len(),
        forall|i: int| 0 <= i < agreed ==> text[i] == source[i],
        agreed == text.len() || agreed == source.len() || text[agreed as int]
            != source[agreed as int],
    ensures
        common_prefix_len(text, source) == agreed,
    decreases agreed,
{
    if agreed > 0 {
        assert forall|i: int| 0 <= i < agreed - 1 implies text.skip(1)[i] == source.skip(1)[i] by {
        }
        lemma_common_prefix_len(text.skip(1), source.skip(1), (agreed - 1) as nat);
    }
}

/// The common prefix is a prefix of both.
pub proof fn lemma_common_prefix_bounds(text: Seq<char>, source: Seq<char>)
    ensures
        common_prefix_len(text, source) <= text.len(),
        common_prefix_len(text, source) <= source.len(),
        common_prefix_len(text, source) == text.len() <==> text.is_prefix_of(source),
    decreases text.len(),
{
    if text.len() > 0 && source.len() > 0 && text[0] == source[0] {
        lemma_common_prefix_bounds(text.skip(1), source.skip(1));
        if text.skip(1).is_prefix_of(source.skip(1)) {
            assert forall|i: int| 0 <= i < text.len() implies text[i] == source[i] by {
                if i > 0 {
                    assert(text.skip(1)[i - 1] == source.skip(1)[i - 1]);
                }
            }
            assert(text =~= source.subrange(0, text.len() as int));
        }
        if text.is_prefix_of(source) {
            assert(text.skip(1) =~= source.skip(1).subrange(0, text.len() - 1));
        }
    }
}

/// A literal match consumes no more than the source holds, and fails inside the source.
pub proof fn lemma_literal_fits(text: Seq<char>, source: Seq<char>)
    ensures
        match spec_consume_literal(text, source) {
            Ok(count) => count == text.len() && count <= source.len(),
            Err(causes) => causes.len() == 1 && causes[0].index() <= source.len()
                && causes[0].index() < text.len(),
        },
{
    lemma_common_prefix_bounds(text, source);
    let agreed = common_prefix_len(text, source);
    if agreed < text.len() && agreed < source.len() {
        crate::text::lemma_char_in_seq(source, agreed as int);
    }
}

/// A type whose values each have one textual form, so that a given value can be looked for
/// at the start of a text.
pub trait SelfConsumable {
    /// The characters that `self` is written as.
    spec fn text(&self) -> Seq<char>;

    /// Consumes the literal `item` from the start of `source` and returns the unconsumed
    /// rest, or says at which index `source` parts from it.
    fn consume_item<'a>(source: &'a str, item: &Self) -> (result: Result<&'a str, ConsumeError>)
        ensures
            match spec_consume_literal(item.text(), source@) {
                Ok(count) => result matches Ok(rest) && count <= source@.len() && rest@
                    == source@.skip(count as int),
                Err(causes) => result matches Err(error) && error@ == causes,
            },
    ;
}

impl SelfConsumable for char {
    open spec fn text(&self) -> Seq<char> {
        seq![*self]
    }

    fn consume_item<'a>(source: &'a str, item: &Self) -> (result: Result<&'a str, ConsumeError>) {
        proof {
            reveal_with_fuel(common_prefix_len, 2);
        }
        match crate::text::first_char(source) {
            None => Err(ConsumeError::new_with(ConsumeErrorType::InsufficientTokens { index: 0 })),
            Some(token) => {
                if token == *item {
                    Ok(utf8_slice::from(source, 1))
                } else {
                    Err(
                        ConsumeError::new_with(
                            ConsumeErrorType::UnexpectedToken { index: 0, token },
                        ),
                    )
                }
            },
        }
    }
}

impl SelfConsumable for &str {
    open spec fn text(&self) -> Seq<char> {
        self@
    }

    fn consume_item<'a>(source: &'a str, item: &Self) -> (result: Result<&'a str, ConsumeError>) {
        let mut unconsumed = source;
        let mut expected = *item;
        let mut index: usize = 0;
        crate::text::count_fits(source);
        loop
            invariant
                source@.len() <= usize::MAX,
                index <= item@.len(),
                index <= source@.len(),
                expected@ == item@.skip(index as int),
                unconsumed@ == source@.skip(index as int),
                forall|i: int| 0 <= i < index ==> item@[i] == source@[i],
            decreases item@.len() - index,
        {
            match crate::text::first_char(expected) {
                None => {
                    proof {
                        lemma_common_prefix_len(item@, source@, index as nat);
                    }
                    return Ok(unconsumed);
                },
                Some(token) => {
                    match crate::text::first_char(unconsumed) {
                        None => {
                            proof {
                                lemma_common_prefix_len(item@, source@, index as nat);
                            }
                            return Err(
                                ConsumeError::new_with(
                                    ConsumeErrorType::InsufficientTokens { index },
                                ),
                            );
                        },
                        Some(next_char) => {
                            if token != next_char {
                                proof {
                                    lemma_common_prefix_len(item@, source@, index as nat);
                                }
                                return Err(
                                    ConsumeError::new_with(
                                        ConsumeErrorType::UnexpectedToken {
                                            index,
                                            token: next_char,
                                        },
                                    ),
                                );
                            }
                        },
                    }
                },
            }
            expected = utf8_slice::from(expected, 1);
            unconsumed = utf8_slice::from(unconsumed, 1);
            index += 1;
        }
    }
}

} // verus!
