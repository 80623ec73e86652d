//! Single bits and small fields of 32-bit register words.

use vstd::prelude::*;

verus! {

/// Whether bit `index` of `word` is set.
pub open spec fn bit(word: u32, index: u32) -> bool {
    (word >> index) & 1 == 1
}

/// `word` with bit `index` forced to `on` and every other bit kept.
pub open spec fn with_bit(word: u32, index: u32, on: bool) -> u32 {
    if on {
        word | (1u32 << index)
    } else {
        word & !(1u32 << index)
    }
}

/// The two-bit field of `word` whose lower bit is bit `offset`.
pub open spec fn pair(word: u32, offset: u32) -> u32 {
    (word >> offset) & 3
}

/// A word with bit `index` alone set if `on`, and zero if not.
pub open spec fn lone(on: bool, index: u32) -> u32 {
    if on {
        1u32 << index
    } else {
        0
    }
}

/// The word in which bit `index` alone may be set, and is if `on`.
pub fn lone_word(on: bool, index: u32) -> (word: u32)
    requires
        index < 32,
    ensures
        word == lone(on, index),
{
    if on {
        1u32 << index
    } else {
        0
    }
}

/// Reads bit `index` of `word`.
pub fn is_set(word: u32, index: u32) -> (on: bool)
    requires
        index < 32,
    ensures
        on == bit(word, index),
{
    (word >> index) & 1 == 1
}

/// Returns `word` with bit `index` set or cleared.
pub fn assign(word: u32, index: u32, on: bool) -> (r: u32)
    requires
        index < 32,
    ensures
        r == with_bit(word, index, on),
{
    if on {
        word | (1u32 << index)
    } else {
        word & !(1u32 << index)
    }
}

/// Reads the two-bit field of `word` that starts at bit `offset`.
pub fn read_pair(word: u32, offset: u32) -> (r: u32)
    requires
        offset < 31,
    ensures
        r == pair(word, offset),
        r <= 3,
{
    let r = (word >> offset) & 3;
    assert((word >> offset) & 3 <= 3) by (bit_vector);
    r
}

/// Writing one bit changes that bit to the value written and no other bit.
pub proof fn lemma_assign_reads_back(word: u32, index: u32, on: bool, other: u32)
    requires
        index < 32,
        other < 32,
    ensures
        bit(with_bit(word, index, on), other) == (if other == index {
            on
        } else {
            bit(word, other)
        }),
{
    assert(bit(word | (1u32 << index), other) == (other == index || bit(word, other)))
        by (bit_vector)
        requires
            index < 32,
            other < 32,
    ;
    assert(bit(word & !(1u32 << index), other) == (other != index && bit(word, other)))
        by (bit_vector)
        requires
            index < 32,
            other < 32,
    ;
}

/// Of two writes to one bit only the second counts, and writing the value
/// that a bit already has changes nothing.
pub proof fn lemma_assign_last_counts(word: u32, index: u32, first: bool, second: bool)
    requires
        index < 32,
    ensures
        with_bit(with_bit(word, index, first), index, second) == with_bit(word, index, second),
        bit(word, index) == second ==> with_bit(word, index, second) == word,
{
    assert((word | (1u32 << index)) | (1u32 << index) == word | (1u32 << index)) by (bit_vector);
    assert((word & !(1u32 << index)) | (1u32 << index) == word | (1u32 << index)) by (bit_vector);
    assert((word | (1u32 << index)) & !(1u32 << index) == word & !(1u32 << index))
        by (bit_vector);
    assert((word & !(1u32 << index)) & !(1u32 << index) == word & !(1u32 << index))
        by (bit_vector);
    assert(bit(word, index) ==> word | (1u32 << index) == word) by (bit_vector)
        requires
            index < 32,
    ;
    assert(!bit(word, index) ==> word & !(1u32 << index) == word) by (bit_vector)
        requires
            index < 32,
    ;
}

} // verus!
