//! Facts about the single bits of a 64-bit word.
//!
//! Each fact is stated for one word and one or two bit positions, so that the
//! bit-vector solver can settle it on its own.

use vstd::prelude::*;
use vstd::std_specs::bits::{
    axiom_u64_leading_zeros,
    axiom_u64_trailing_zeros,
    u64_leading_zeros,
    u64_trailing_zeros,
};
use crate::bitboard::{is_member, mirror_swaps, mirrored_square};
use crate::debruijn::low_mask;
use crate::square::Square;

verus! {

/// Whether bit `at` is the lowest one-bit of `word`.
pub open spec fn is_lowest_bit(word: u64, at: Square) -> bool {
    at < 64 && (word >> (at as u64)) & 1 == 1 && word << ((64 - at) as u64) == 0
}

/// Whether bit `at` is the highest one-bit of `word`.
pub open spec fn is_highest_bit(word: u64, at: Square) -> bool {
    at < 64 && (word >> (at as u64)) & 1 == 1 && word >> ((at + 1) as u64) == 0
}

/// The word with every bit at or below its highest one-bit turned on.
pub open spec fn smear(word: u64) -> u64 {
    let by1 = word | (word >> 1);
    let by2 = by1 | (by1 >> 2);
    let by4 = by2 | (by2 >> 4);
    let by8 = by4 | (by4 >> 8);
    let by16 = by8 | (by8 >> 16);
    by16 | (by16 >> 32)
}

/// A word that is not zero has a lowest one-bit.
pub proof fn lemma_lowest_bit_exists(word: u64) -> (at: Square)
    requires
        word != 0,
    ensures
        is_lowest_bit(word, at),
{
    axiom_u64_trailing_zeros(word);
    u64_trailing_zeros(word) as Square
}

/// A word that is not zero has a highest one-bit.
pub proof fn lemma_highest_bit_exists(word: u64) -> (at: Square)
    requires
        word != 0,
    ensures
        is_highest_bit(word, at),
{
    axiom_u64_leading_zeros(word);
    let at = (63 - u64_leading_zeros(word)) as Square;
    let shifted = word >> (at as u64);
    assert(shifted & 1 != 0 ==> shifted & 1 == 1) by (bit_vector);
    at
}

/// What the lowest one-bit of a word says about the word's members, about
/// the word with that bit cleared, and about the run that isolates it.
pub proof fn lemma_lowest_bit(word: u64, at: Square, square: Square)
    by (bit_vector)
    requires
        is_lowest_bit(word, at),
    ensures
        word != 0,
        is_member(word, at),
        square < at ==> !is_member(word, square),
        is_member(word & ((word - 1) as u64), square) == (is_member(word, square) && square != at),
        word ^ ((word - 1) as u64) == low_mask(at),
{
}

/// What the highest one-bit of a word says about the word's members and
/// about the smeared word.
pub proof fn lemma_highest_bit(word: u64, at: Square, square: Square)
    by (bit_vector)
    requires
        is_highest_bit(word, at),
    ensures
        word != 0,
        is_member(word, at),
        square > at ==> !is_member(word, square),
        smear(word) == low_mask(at),
{
}

/// Two words differ in the lowest one-bit of their exclusive or.
pub proof fn lemma_differing_bit(left: u64, right: u64, at: Square)
    by (bit_vector)
    requires
        is_lowest_bit(left ^ right, at),
    ensures
        is_member(left, at) != is_member(right, at),
{
}

/// The bits of the two constant words.
pub proof fn lemma_constant_bits(square: Square)
    by (bit_vector)
    ensures
        !is_member(0, square),
        is_member(0xffff_ffff_ffff_ffff, square) == (square < 64),
{
}

/// The bits of a word after one bit is turned on or off.
pub proof fn lemma_single_bit_change(word: u64, changed: Square, square: Square)
    by (bit_vector)
    requires
        changed < 64,
    ensures
        is_member(word | (1u64 << changed), square) == (is_member(word, square) || square == changed),
        is_member(word & !(1u64 << changed), square) == (is_member(word, square) && square != changed),
{
}

/// The bits of the bitwise combinations of two words.
pub proof fn lemma_combined_bits(left: u64, right: u64, square: Square)
    by (bit_vector)
    ensures
        is_member(left | right, square) == (is_member(left, square) || is_member(right, square)),
        is_member(left & right, square) == (is_member(left, square) && is_member(right, square)),
        is_member(left ^ right, square) == (is_member(left, square) != is_member(right, square)),
        is_member(!left, square) == (square < 64 && !is_member(left, square)),
{
}

/// The bits of a shifted word.
pub proof fn lemma_shifted_bits(word: u64, by: u8, square: Square)
    by (bit_vector)
    requires
        by < 64,
    ensures
        is_member(word << by, square) == (by <= square < 64 && is_member(word, (square - by) as u8)),
        is_member(word >> by, square) == (square + by < 64 && is_member(word, (square + by) as u8)),
{
}

/// The bits of a word after the three rounds of swaps.
pub proof fn lemma_mirror_swaps_bit(word: u64, square: Square)
    by (bit_vector)
    requires
        square < 64,
    ensures
        is_member(mirror_swaps(word), square) == is_member(word, mirrored_square(square)),
{
}

} // verus!
