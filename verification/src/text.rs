//! Character-wise access to a `&str`: its length, its first character and its suffixes.

use vstd::prelude::*;

verus! {

/// `utf8_slice::len` counts the characters of `s`, not its bytes.
pub assume_specification[ utf8_slice::len ](s: &str) -> (count: usize)
    ensures
        count == s@.len(),
;

/// `utf8_slice::from` returns the part of `s` that starts at character index `begin`. With
/// `begin` at or beyond the end of `s`, that part is empty.
pub assume_specification[ utf8_slice::from ](s: &str, begin: usize) -> (rest: &str)
    ensures
        rest@ == (if begin <= s@.len() {
            s@.skip(begin as int)
        } else {
            Seq::<char>::empty()
        }),
;

/// A character is the character of its own code point.
pub proof fn lemma_char_code(c: char)
    ensures
        c as u32 as char == c,
{
}

/// What stands at an index of a text is a character: it has a code point of its own.
pub proof fn lemma_char_in_seq(chars: Seq<char>, i: int)
    requires
        0 <= i < chars.len(),
    ensures
        chars[i] as u32 as char == chars[i],
{
    lemma_char_code(chars[i]);
}

/// Every character is encoded in at least one byte.
pub proof fn lemma_encoding_len(chars: Seq<char>)
    ensures
        chars.len() <= vstd::utf8::encode_utf8(chars).len(),
    decreases chars.len(),
{
    if chars.len() > 0 {
        lemma_encoding_len(chars.drop_first());
    }
}

/// A `&str` holds no more characters than a `usize` can count, since it holds no more bytes
/// than that. Costs nothing when it runs.
pub(crate) fn count_fits(source: &str)
    ensures
        source@.len() <= usize::MAX,
{
    let bytes = source.as_bytes();
    let size: usize = bytes.len();
    proof {
        lemma_encoding_len(source@);
    }
}

/// The encoding of two texts in a row is the encoding of the first and then that of the
/// second.
pub proof fn lemma_encoding_concat(first: Seq<char>, second: Seq<char>)
    ensures
        vstd::utf8::encode_utf8(first + second) == vstd::utf8::encode_utf8(first)
            + vstd::utf8::encode_utf8(second),
    decreases first.len(),
{
    if first.len() > 0 {
        assert((first + second).drop_first() =~= first.drop_first() + second);
        lemma_encoding_concat(first.drop_first(), second);
    }
}

/// Whether `rest`, a suffix of `source`, is all of `source`. Told by the lengths in bytes,
/// which are at hand, and not by counting characters.
pub(crate) fn same_length(source: &str, rest: &str) -> (same: bool)
    requires
        rest@.len() <= source@.len(),
        rest@ == source@.skip(source@.len() - rest@.len()),
    ensures
        same == (rest@.len() == source@.len()),
{
    let whole = source.as_bytes();
    let part = rest.as_bytes();
    proof {
        let taken = source@.take(source@.len() - rest@.len());
        assert(taken + rest@ =~= source@);
        lemma_encoding_concat(taken, rest@);
        lemma_encoding_len(taken);
    }
    whole.len() == part.len()
}

/// The first character of `source`, if it has one.
pub(crate) fn first_char(source: &str) -> (first: Option<char>)
    ensures
        first == (if source@.len() > 0 {
            Some(source@[0])
        } else {
            None::<char>
        }),
{
    let mut chars = source.chars();
    chars.next()
}

} // verus!
