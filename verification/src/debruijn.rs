//! The De Bruijn multiplication behind both bit scans.
//!
//! A run of one-bits from bit 0 up to some bit `top` is multiplied by a
//! constant chosen so that the top six bits of the product differ for each of
//! the 64 possible runs; a table then maps those six bits back to `top`.
//! (The technique is due to Kim Walisch and Mark Dickinson.)

use vstd::prelude::*;

verus! {

/// The multiplier.
pub const DEBRUIJN64: u64 = 0x03f79d71b4cb0a89;

/// For each slot, the top bit of the run that lands in it.
pub const INDEX64: [u8; 64] = [
    0, 47, 1, 56, 48, 27, 2, 60,
    57, 49, 41, 37, 28, 16, 3, 61,
    54, 58, 35, 52, 50, 42, 21, 44,
    38, 32, 29, 23, 17, 11, 4, 62,
    46, 55, 26, 59, 40, 36, 15, 53,
    34, 51, 20, 43, 31, 22, 10, 45,
    25, 39, 14, 33, 19, 30, 9, 24,
    13, 18, 8, 12, 7, 6, 5, 63,
];

/// The run of one-bits from bit 0 up to and including bit `top`.
pub open spec fn low_mask(top: u8) -> u64
    recommends
        top < 64,
{
    u64::MAX >> ((63 - top) as u64)
}

/// Whether `pattern` is a run of one-bits that starts at bit 0.
pub open spec fn is_low_mask(pattern: u64) -> bool {
    exists|top: u8| top < 64 && pattern == #[trigger] low_mask(top)
}

/// The table slot of a bit pattern: the top six bits of its wrapping product
/// with the multiplier.
pub open spec fn slot(pattern: u64) -> u64 {
    pattern.wrapping_mul(DEBRUIJN64) >> 58
}

/// Where each of the 64 runs lands in the table.
proof fn lemma_slot_of_low_mask(top: u8)
    by (bit_vector)
    requires
        top < 64,
    ensures
        slot(low_mask(top)) < 64,
        top == 0 ==> slot(low_mask(top)) == 0,
        top == 1 ==> slot(low_mask(top)) == 2,
        top == 2 ==> slot(low_mask(top)) == 6,
        top == 3 ==> slot(low_mask(top)) == 14,
        top == 4 ==> slot(low_mask(top)) == 30,
        top == 5 ==> slot(low_mask(top)) == 62,
        top == 6 ==> slot(low_mask(top)) == 61,
        top == 7 ==> slot(low_mask(top)) == 60,
        top == 8 ==> slot(low_mask(top)) == 58,
        top == 9 ==> slot(low_mask(top)) == 54,
        top == 10 ==> slot(low_mask(top)) == 46,
        top == 11 ==> slot(low_mask(top)) == 29,
        top == 12 ==> slot(low_mask(top)) == 59,
        top == 13 ==> slot(low_mask(top)) == 56,
        top == 14 ==> slot(low_mask(top)) == 50,
        top == 15 ==> slot(low_mask(top)) == 38,
        top == 16 ==> slot(low_mask(top)) == 13,
        top == 17 ==> slot(low_mask(top)) == 28,
        top == 18 ==> slot(low_mask(top)) == 57,
        top == 19 ==> slot(low_mask(top)) == 52,
        top == 20 ==> slot(low_mask(top)) == 42,
        top == 21 ==> slot(low_mask(top)) == 22,
        top == 22 ==> slot(low_mask(top)) == 45,
        top == 23 ==> slot(low_mask(top)) == 27,
        top == 24 ==> slot(low_mask(top)) == 55,
        top == 25 ==> slot(low_mask(top)) == 48,
        top == 26 ==> slot(low_mask(top)) == 34,
        top == 27 ==> slot(low_mask(top)) == 5,
        top == 28 ==> slot(low_mask(top)) == 12,
        top == 29 ==> slot(low_mask(top)) == 26,
        top == 30 ==> slot(low_mask(top)) == 53,
        top == 31 ==> slot(low_mask(top)) == 44,
        top == 32 ==> slot(low_mask(top)) == 25,
        top == 33 ==> slot(low_mask(top)) == 51,
        top == 34 ==> slot(low_mask(top)) == 40,
        top == 35 ==> slot(low_mask(top)) == 18,
        top == 36 ==> slot(low_mask(top)) == 37,
        top == 37 ==> slot(low_mask(top)) == 11,
        top == 38 ==> slot(low_mask(top)) == 24,
        top == 39 ==> slot(low_mask(top)) == 49,
        top == 40 ==> slot(low_mask(top)) == 36,
        top == 41 ==> slot(low_mask(top)) == 10,
        top == 42 ==> slot(low_mask(top)) == 21,
        top == 43 ==> slot(low_mask(top)) == 43,
        top == 44 ==> slot(low_mask(top)) == 23,
        top == 45 ==> slot(low_mask(top)) == 47,
        top == 46 ==> slot(low_mask(top)) == 32,
        top == 47 ==> slot(low_mask(top)) == 1,
        top == 48 ==> slot(low_mask(top)) == 4,
        top == 49 ==> slot(low_mask(top)) == 9,
        top == 50 ==> slot(low_mask(top)) == 20,
        top == 51 ==> slot(low_mask(top)) == 41,
        top == 52 ==> slot(low_mask(top)) == 19,
        top == 53 ==> slot(low_mask(top)) == 39,
        top == 54 ==> slot(low_mask(top)) == 16,
        top == 55 ==> slot(low_mask(top)) == 33,
        top == 56 ==> slot(low_mask(top)) == 3,
        top == 57 ==> slot(low_mask(top)) == 8,
        top == 58 ==> slot(low_mask(top)) == 17,
        top == 59 ==> slot(low_mask(top)) == 35,
        top == 60 ==> slot(low_mask(top)) == 7,
        top == 61 ==> slot(low_mask(top)) == 15,
        top == 62 ==> slot(low_mask(top)) == 31,
        top == 63 ==> slot(low_mask(top)) == 63,
{
}

/// Different runs are different patterns.
pub proof fn lemma_low_mask_injective(top1: u8, top2: u8)
    by (bit_vector)
    requires
        top1 < 64,
        top2 < 64,
        low_mask(top1) == low_mask(top2),
    ensures
        top1 == top2,
{
}

/// Finds the top bit of a run of one-bits that starts at bit 0.
pub fn top_of_low_mask(pattern: u64) -> (top: u8)
    requires
        is_low_mask(pattern),
    ensures
        top < 64,
        pattern == low_mask(top),
{
    let ghost run: u8 = choose|run: u8| run < 64 && pattern == #[trigger] low_mask(run);
    proof {
        lemma_slot_of_low_mask(run);
    }
    let at: usize = (pattern.wrapping_mul(DEBRUIJN64) >> 58) as usize;
    let top = INDEX64[at];
    assert(top == run);
    top
}

} // verus!
