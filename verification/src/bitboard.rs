//! Bitboards: sets of squares held in one 64-bit word.
//!
//! Bit `i` of the word is one exactly when square `i` is a member.  The
//! contracts speak of a bitboard through [`is_member`] and [`squares`], the set of
//! its members; [`lemma_squares_injective`] shows that the members determine
//! the word.

use vstd::prelude::*;
use vstd::string::StringExecFns;
use crate::bit_facts::{
    lemma_combined_bits,
    lemma_constant_bits,
    lemma_differing_bit,
    lemma_highest_bit,
    lemma_highest_bit_exists,
    lemma_lowest_bit,
    lemma_lowest_bit_exists,
    lemma_mirror_swaps_bit,
    lemma_shifted_bits,
    lemma_single_bit_change,
    smear,
};
use crate::debruijn::{lemma_low_mask_injective, low_mask, top_of_low_mask};
use crate::file::File;
use crate::square::{Square, is_square, spec_compose, spec_file, spec_rank};

verus! {

/// A 64-bit set of squares.
pub type Bitboard = u64;

/// Bitboard with all bits set to zero.
pub const EMPTY: Bitboard = 0;

/// Bitboard with all bits set to one.
pub const UNIVERSAL: Bitboard = 0xffff_ffff_ffff_ffff;

/// Whether `square` is a member of `bitboard`.
pub open spec fn is_member(bitboard: Bitboard, square: Square) -> bool {
    square < 64 && bitboard & (1u64 << square) != 0
}

/// The members of `bitboard`.
pub open spec fn squares(bitboard: Bitboard) -> Set<Square> {
    Set::new(|square: Square| is_member(bitboard, square))
}

/// The set of all 64 squares.
pub open spec fn all_squares() -> Set<Square> {
    Set::new(|square: Square| is_square(square))
}

/// The square on the same rank whose file is as far from file H as the file
/// of `square` is from file A.
pub open spec fn mirrored_square(square: Square) -> Square
    recommends
        is_square(square),
{
    spec_compose((7 - spec_file(square)) as File, spec_rank(square))
}

/// The three rounds of swaps that mirror a word: neighbouring bits, then
/// neighbouring pairs, then the two halves of each byte.
pub open spec fn mirror_swaps(word: u64) -> u64 {
    let bits = ((word >> 1) & 0x5555555555555555) | ((word & 0x5555555555555555) << 1);
    let pairs = ((bits >> 2) & 0x3333333333333333) | ((bits & 0x3333333333333333) << 2);
    ((pairs >> 4) & 0x0f0f0f0f0f0f0f0f) | ((pairs & 0x0f0f0f0f0f0f0f0f) << 4)
}

/// Two bitboards with the same members are the same word.
pub proof fn lemma_squares_injective(left: Bitboard, right: Bitboard)
    requires
        squares(left) == squares(right),
    ensures
        left == right,
{
    if left != right {
        assert(left ^ right != 0) by (bit_vector)
            requires
                left != right,
        ;
        let at = lemma_lowest_bit_exists(left ^ right);
        lemma_differing_bit(left, right, at);
        assert(squares(left).contains(at) == is_member(left, at));
        assert(squares(right).contains(at) == is_member(right, at));
    }
}

/// Returns the bitboard without members.
pub fn empty() -> (bitboard: Bitboard)
    ensures
        bitboard == EMPTY,
        squares(bitboard) == Set::<Square>::empty(),
{
    proof {
        lemma_empty_squares();
    }
    EMPTY
}

/// Returns the bitboard of which every square is a member.
pub fn universal() -> (bitboard: Bitboard)
    ensures
        bitboard == UNIVERSAL,
        squares(bitboard) == all_squares(),
{
    proof {
        lemma_universal_squares();
    }
    UNIVERSAL
}

/// The word of zeros has no members.
pub proof fn lemma_empty_squares()
    ensures
        squares(EMPTY) == Set::<Square>::empty(),
{
    assert forall|square: Square| !is_member(EMPTY, square) by {
        lemma_constant_bits(square);
    }
    assert(squares(EMPTY) =~= Set::<Square>::empty());
}

/// The word of ones has every square as a member.
pub proof fn lemma_universal_squares()
    ensures
        squares(UNIVERSAL) == all_squares(),
{
    assert forall|square: Square| is_member(UNIVERSAL, square) == is_square(square) by {
        lemma_constant_bits(square);
    }
    assert(squares(UNIVERSAL) =~= all_squares());
}

/// Checks if the bitboard is empty.
pub fn is_empty(bitboard: Bitboard) -> (answer: bool)
    ensures
        answer == (bitboard == EMPTY),
        answer == (squares(bitboard) == Set::<Square>::empty()),
{
    proof {
        lemma_empty_squares();
        if squares(bitboard) == Set::<Square>::empty() {
            lemma_squares_injective(bitboard, EMPTY);
        }
    }
    bitboard == EMPTY
}

/// Checks if the bitboard is universal.
pub fn is_universal(bitboard: Bitboard) -> (answer: bool)
    ensures
        answer == (bitboard == UNIVERSAL),
        answer == (squares(bitboard) == all_squares()),
{
    proof {
        lemma_universal_squares();
        if squares(bitboard) == all_squares() {
            lemma_squares_injective(bitboard, UNIVERSAL);
        }
    }
    bitboard == UNIVERSAL
}

/// The bitboard with `square` added to the members of `bitboard`.
pub open spec fn spec_set(bitboard: Bitboard, square: Square) -> Bitboard
    recommends
        is_square(square),
{
    bitboard | (1u64 << square)
}

/// The bitboard with `square` taken from the members of `bitboard`.
pub open spec fn spec_reset(bitboard: Bitboard, square: Square) -> Bitboard
    recommends
        is_square(square),
{
    bitboard & !(1u64 << square)
}

/// Adds a square to a bitboard.
#[verifier::when_used_as_spec(spec_set)]
pub fn set(bitboard: Bitboard, square: Square) -> (larger: Bitboard)
    requires
        is_square(square),
    ensures
        larger == spec_set(bitboard, square),
        squares(larger) == squares(bitboard).insert(square),
        is_member(larger, square),
{
    proof {
        assert forall|other: Square|
            #[trigger] is_member(spec_set(bitboard, square), other) == (is_member(bitboard, other)
                || other == square) by {
            lemma_single_bit_change(bitboard, square, other);
        }
        assert(squares(spec_set(bitboard, square)) =~= squares(bitboard).insert(square));
    }
    bitboard | (1u64 << square)
}

/// Takes a square from a bitboard.
#[verifier::when_used_as_spec(spec_reset)]
pub fn reset(bitboard: Bitboard, square: Square) -> (smaller: Bitboard)
    requires
        is_square(square),
    ensures
        smaller == spec_reset(bitboard, square),
        squares(smaller) == squares(bitboard).remove(square),
        !is_member(smaller, square),
{
    proof {
        assert forall|other: Square|
            #[trigger] is_member(spec_reset(bitboard, square), other) == (is_member(
                bitboard,
                other,
            ) && other != square) by {
            lemma_single_bit_change(bitboard, square, other);
        }
        assert(squares(spec_reset(bitboard, square)) =~= squares(bitboard).remove(square));
    }
    bitboard & !(1u64 << square)
}

/// Checks if a square is a member of a bitboard.
#[verifier::when_used_as_spec(is_member)]
pub fn is_set(bitboard: Bitboard, square: Square) -> (answer: bool)
    requires
        is_square(square),
    ensures
        answer == is_member(bitboard, square),
        answer == squares(bitboard).contains(square),
{
    bitboard & (1u64 << square) != 0
}

/// Taking a square out again after adding it leaves what taking it out of
/// the bitboard as it was leaves, and a square that was just added is a member.
pub proof fn lemma_reset_after_set(bitboard: Bitboard, square: Square)
    requires
        is_square(square),
    ensures
        reset(set(bitboard, square), square) == reset(bitboard, square),
        is_set(set(bitboard, square), square),
{
    assert((bitboard | (1u64 << square)) & !(1u64 << square) == bitboard & !(1u64 << square))
        by (bit_vector);
    lemma_single_bit_change(bitboard, square, square);
}

/// The number of members of `bitboard` among the squares below `limit`,
/// found by testing one square after the other.
pub open spec fn count_below(bitboard: Bitboard, limit: nat) -> nat
    decreases limit,
{
    if limit == 0 {
        0
    } else if is_member(bitboard, (limit - 1) as Square) {
        count_below(bitboard, (limit - 1) as nat) + 1
    } else {
        count_below(bitboard, (limit - 1) as nat)
    }
}

/// The members of `bitboard` among the squares below `limit`.
pub open spec fn squares_below(bitboard: Bitboard, limit: nat) -> Set<Square> {
    Set::new(|square: Square| square < limit && is_member(bitboard, square))
}

/// Testing the squares below `limit` one by one counts the members below
/// `limit`.
pub proof fn lemma_count_below(bitboard: Bitboard, limit: nat)
    requires
        limit <= 64,
    ensures
        squares_below(bitboard, limit).finite(),
        squares_below(bitboard, limit).len() == count_below(bitboard, limit),
        count_below(bitboard, limit) <= limit,
    decreases limit,
{
    if limit == 0 {
        assert(squares_below(bitboard, limit) =~= Set::<Square>::empty());
    } else {
        let before = (limit - 1) as nat;
        let last = before as Square;
        lemma_count_below(bitboard, before);
        if is_member(bitboard, last) {
            assert(squares_below(bitboard, limit) =~= squares_below(bitboard, before).insert(
                last,
            ));
        } else {
            assert(squares_below(bitboard, limit) =~= squares_below(bitboard, before));
        }
    }
}

/// A bitboard has as many members as testing all 64 squares one by one
/// finds, and so at most 64.
pub proof fn lemma_squares_counted(bitboard: Bitboard)
    ensures
        squares(bitboard).finite(),
        squares(bitboard).len() == count_below(bitboard, 64),
        squares(bitboard).len() <= 64,
{
    lemma_count_below(bitboard, 64);
    assert(squares_below(bitboard, 64) =~= squares(bitboard));
}

/// Clearing the lowest one-bit of a word takes exactly one member away.
proof fn lemma_clear_lowest(bitboard: Bitboard) -> (least: Square)
    requires
        bitboard != EMPTY,
    ensures
        is_least_member(bitboard, least),
        squares(bitboard & ((bitboard - 1) as u64)) == squares(bitboard).remove(least),
        squares(bitboard & ((bitboard - 1) as u64)).len() + 1 == squares(bitboard).len(),
{
    let least = lemma_lowest_bit_exists(bitboard);
    let cleared = bitboard & ((bitboard - 1) as u64);
    assert forall|other: Square|
        #[trigger] is_member(cleared, other) == (is_member(bitboard, other) && other != least) by {
        lemma_lowest_bit(bitboard, least, other);
    }
    assert forall|other: Square| is_member(bitboard, other) implies least <= other by {
        lemma_lowest_bit(bitboard, least, other);
    }
    lemma_lowest_bit(bitboard, least, least);
    assert(squares(cleared) =~= squares(bitboard).remove(least));
    lemma_squares_counted(bitboard);
    least
}

/// Whether `square` is the least member of `bitboard`.
pub open spec fn is_least_member(bitboard: Bitboard, square: Square) -> bool {
    &&& is_member(bitboard, square)
    &&& forall|other: Square| #[trigger] is_member(bitboard, other) ==> square <= other
}

/// Whether `square` is the greatest member of `bitboard`.
pub open spec fn is_greatest_member(bitboard: Bitboard, square: Square) -> bool {
    &&& is_member(bitboard, square)
    &&& forall|other: Square| #[trigger] is_member(bitboard, other) ==> other <= square
}

/// The number of members of `bitboard`.
pub open spec fn spec_cardinality(bitboard: Bitboard) -> usize {
    squares(bitboard).len() as usize
}

/// Whether `bitboard` has exactly one member.
pub open spec fn spec_is_single(bitboard: Bitboard) -> bool {
    squares(bitboard).len() == 1
}

/// Checks if the bitboard has exactly one member, that is, if its
/// cardinality is one.
///
/// Clearing the lowest one-bit of a word leaves zero exactly when the word
/// had one one-bit.
#[verifier::when_used_as_spec(spec_is_single)]
pub fn is_single(bitboard: Bitboard) -> (answer: bool)
    ensures
        answer == spec_is_single(bitboard),
        answer == (squares(bitboard).len() == 1),
        answer == (cardinality(bitboard) == 1),
{
    proof {
        lemma_squares_counted(bitboard);
        if bitboard == EMPTY {
            lemma_empty_squares();
        } else {
            let cleared = bitboard & ((bitboard - 1) as u64);
            lemma_clear_lowest(bitboard);
            lemma_squares_counted(cleared);
            lemma_empty_squares();
            if squares(cleared).len() == 0 {
                assert(squares(cleared) =~= Set::<Square>::empty());
                lemma_squares_injective(cleared, EMPTY);
            }
        }
    }
    bitboard != 0 && (bitboard & (bitboard - 1)) == 0
}

/// Returns the cardinality of a bitboard: the number of its members.
///
/// The loop clears the lowest one-bit until none is left, so it runs once
/// for each member.
#[verifier::when_used_as_spec(spec_cardinality)]
pub fn cardinality(bitboard: Bitboard) -> (count: usize)
    ensures
        count == spec_cardinality(bitboard),
        count == squares(bitboard).len(),
        count == count_below(bitboard, 64),
        count <= 64,
{
    let mut rest = bitboard;
    let mut count: usize = 0;
    proof {
        lemma_squares_counted(bitboard);
    }
    while rest != 0
        invariant
            count + squares(rest).len() == squares(bitboard).len(),
            squares(bitboard).len() <= 64,
        decreases squares(rest).len(),
    {
        proof {
            lemma_clear_lowest(rest);
        }
        count += 1;
        rest &= rest - 1;
    }
    proof {
        lemma_empty_squares();
    }
    count
}

/// Returns the least member of a bitboard, which must not be empty.
///
/// `bitboard ^ (bitboard - 1)` is the run of one-bits up to the lowest
/// one-bit of `bitboard`; the De Bruijn lookup turns it into its top bit.
pub fn bitscan_forward(bitboard: Bitboard) -> (square: Square)
    requires
        bitboard != EMPTY,
    ensures
        is_square(square),
        is_least_member(bitboard, square),
{
    let ghost least = 0u8;
    proof {
        least = lemma_lowest_bit_exists(bitboard);
        lemma_lowest_bit(bitboard, least, least);
        assert(bitboard ^ ((bitboard - 1) as u64) == low_mask(least));
    }
    let square = top_of_low_mask(bitboard ^ (bitboard - 1));
    proof {
        lemma_low_mask_injective(square, least);
        assert forall|other: Square| is_member(bitboard, other) implies square <= other by {
            lemma_lowest_bit(bitboard, least, other);
        }
    }
    square
}

/// Returns the greatest member of a bitboard, which must not be empty.
///
/// Or-ing the word with itself shifted right by 1, 2, 4, 8, 16 and 32 turns
/// on every bit below its highest one-bit; the De Bruijn lookup turns that
/// run into its top bit.
pub fn bitscan_reverse(bitboard: Bitboard) -> (square: Square)
    requires
        bitboard != EMPTY,
    ensures
        is_square(square),
        is_greatest_member(bitboard, square),
{
    let ghost greatest = 0u8;
    proof {
        greatest = lemma_highest_bit_exists(bitboard);
        lemma_highest_bit(bitboard, greatest, greatest);
        assert(smear(bitboard) == low_mask(greatest));
    }
    let mut word = bitboard;
    word |= word >> 1;
    word |= word >> 2;
    word |= word >> 4;
    word |= word >> 8;
    word |= word >> 16;
    word |= word >> 32;
    let square = top_of_low_mask(word);
    proof {
        lemma_low_mask_injective(square, greatest);
        assert forall|other: Square| is_member(bitboard, other) implies other <= square by {
            lemma_highest_bit(bitboard, greatest, other);
        }
    }
    square
}

/// Whether `image` is `bitboard` flipped about the centre files: on every
/// rank, the square in file A of the one is a member exactly when the square
/// in file H of the other is, and so on for B and G, C and F, D and E.
pub open spec fn is_mirror_image(bitboard: Bitboard, image: Bitboard) -> bool {
    forall|square: Square|
        is_square(square) ==> (#[trigger] is_member(image, square) <==> is_member(
            bitboard,
            mirrored_square(square),
        ))
}

/// The mirror image of `bitboard`.
pub open spec fn spec_mirror(bitboard: Bitboard) -> Bitboard {
    choose|image: Bitboard| is_mirror_image(bitboard, image)
}

/// A bitboard has one mirror image only.
pub proof fn lemma_mirror_image_unique(bitboard: Bitboard, image1: Bitboard, image2: Bitboard)
    requires
        is_mirror_image(bitboard, image1),
        is_mirror_image(bitboard, image2),
    ensures
        image1 == image2,
{
    assert forall|square: Square| is_member(image1, square) == is_member(image2, square) by {
        if is_square(square) {
            assert(is_member(image1, square) == is_member(bitboard, mirrored_square(square)));
            assert(is_member(image2, square) == is_member(bitboard, mirrored_square(square)));
        }
    }
    assert(squares(image1) =~= squares(image2));
    lemma_squares_injective(image1, image2);
}

/// The three rounds of swaps give the mirror image, which is therefore what
/// `spec_mirror` names.
pub proof fn lemma_mirror_swaps(bitboard: Bitboard)
    ensures
        is_mirror_image(bitboard, mirror_swaps(bitboard)),
        is_mirror_image(bitboard, spec_mirror(bitboard)),
        spec_mirror(bitboard) == mirror_swaps(bitboard),
{
    assert forall|square: Square| is_square(square) implies (#[trigger] is_member(
        mirror_swaps(bitboard),
        square,
    ) <==> is_member(bitboard, mirrored_square(square))) by {
        lemma_mirror_swaps_bit(bitboard, square);
    }
    assert(is_mirror_image(bitboard, mirror_swaps(bitboard)));
    lemma_mirror_image_unique(bitboard, spec_mirror(bitboard), mirror_swaps(bitboard));
}

/// Mirrors a bitboard horizontally about the centre files.
///
/// File A is mapped to file H and vice versa; the ranks stay as they are.
#[verifier::when_used_as_spec(spec_mirror)]
pub fn mirror(x: Bitboard) -> (image: Bitboard)
    ensures
        is_mirror_image(x, image),
        image == spec_mirror(x),
{
    proof {
        lemma_mirror_swaps(x);
    }
    let bits = ((x >> 1) & 0x5555555555555555) | ((x & 0x5555555555555555) << 1);
    let pairs = ((bits >> 2) & 0x3333333333333333) | ((bits & 0x3333333333333333) << 2);
    ((pairs >> 4) & 0x0f0f0f0f0f0f0f0f) | ((pairs & 0x0f0f0f0f0f0f0f0f) << 4)
}

/// Mirroring twice gives the bitboard back, and the empty and the universal
/// bitboard are their own mirror images.
pub proof fn lemma_mirror_involution(bitboard: Bitboard)
    ensures
        mirror(mirror(bitboard)) == bitboard,
        mirror(EMPTY) == EMPTY,
        mirror(UNIVERSAL) == UNIVERSAL,
{
    let image = spec_mirror(bitboard);
    lemma_mirror_swaps(bitboard);
    lemma_mirror_swaps(image);
    assert forall|square: Square| is_square(square) implies (#[trigger] is_member(
        bitboard,
        square,
    ) <==> is_member(image, mirrored_square(square))) by {
        let twin = mirrored_square(square);
        assert(is_square(twin) && mirrored_square(twin) == square);
        assert(is_member(image, twin) <==> is_member(bitboard, mirrored_square(twin)));
    }
    lemma_mirror_image_unique(image, spec_mirror(image), bitboard);

    lemma_mirror_swaps(EMPTY);
    lemma_mirror_swaps(UNIVERSAL);
    assert forall|square: Square|
        !is_member(EMPTY, square) && is_member(UNIVERSAL, square) == is_square(square) by {
        lemma_constant_bits(square);
    }
    assert forall|square: Square| is_square(square) implies is_square(
        #[trigger] mirrored_square(square),
    ) by {}
    lemma_mirror_image_unique(EMPTY, spec_mirror(EMPTY), EMPTY);
    lemma_mirror_image_unique(UNIVERSAL, spec_mirror(UNIVERSAL), UNIVERSAL);
}

/// Returns the bitboard of the squares that are members of either operand.
pub fn union(left: Bitboard, right: Bitboard) -> (both: Bitboard)
    ensures
        both == left | right,
        squares(both) == squares(left).union(squares(right)),
{
    proof {
        assert forall|square: Square| #[trigger]
            is_member(left | right, square) == (is_member(left, square) || is_member(
                right,
                square,
            )) by {
            lemma_combined_bits(left, right, square);
        }
        assert(squares(left | right) =~= squares(left).union(squares(right)));
    }
    left | right
}

/// Returns the bitboard of the squares that are members of both operands.
pub fn intersection(left: Bitboard, right: Bitboard) -> (common: Bitboard)
    ensures
        common == left & right,
        squares(common) == squares(left).intersect(squares(right)),
{
    proof {
        assert forall|square: Square| #[trigger]
            is_member(left & right, square) == (is_member(left, square) && is_member(
                right,
                square,
            )) by {
            lemma_combined_bits(left, right, square);
        }
        assert(squares(left & right) =~= squares(left).intersect(squares(right)));
    }
    left & right
}

/// Returns the bitboard of the squares that are members of exactly one of
/// the operands.
pub fn symmetric_difference(left: Bitboard, right: Bitboard) -> (either: Bitboard)
    ensures
        either == left ^ right,
        squares(either) == squares(left).difference(squares(right)).union(
            squares(right).difference(squares(left)),
        ),
{
    proof {
        assert forall|square: Square| #[trigger]
            is_member(left ^ right, square) == (is_member(left, square) != is_member(
                right,
                square,
            )) by {
            lemma_combined_bits(left, right, square);
        }
        assert(squares(left ^ right) =~= squares(left).difference(squares(right)).union(
            squares(right).difference(squares(left)),
        ));
    }
    left ^ right
}

/// Returns the bitboard of the squares that are not members of `bitboard`.
pub fn complement(bitboard: Bitboard) -> (others: Bitboard)
    ensures
        others == !bitboard,
        squares(others) == all_squares().difference(squares(bitboard)),
{
    proof {
        assert forall|square: Square| #[trigger]
            is_member(!bitboard, square) == (is_square(square) && !is_member(bitboard, square)) by {
            lemma_combined_bits(bitboard, bitboard, square);
        }
        assert(squares(!bitboard) =~= all_squares().difference(squares(bitboard)));
    }
    !bitboard
}

/// Moves every member `by` squares up; members that would pass square 63
/// are dropped.
pub fn shift_left(bitboard: Bitboard, by: u8) -> (shifted: Bitboard)
    requires
        by < 64,
    ensures
        shifted == bitboard << by,
        forall|square: Square| #[trigger]
            is_member(shifted, square) == (by <= square < 64 && is_member(
                bitboard,
                (square - by) as Square,
            )),
{
    proof {
        assert forall|square: Square| #[trigger]
            is_member(bitboard << by, square) == (by <= square < 64 && is_member(
                bitboard,
                (square - by) as Square,
            )) by {
            lemma_shifted_bits(bitboard, by, square);
        }
    }
    bitboard << by
}

/// Moves every member `by` squares down; members that would pass square 0
/// are dropped.
pub fn shift_right(bitboard: Bitboard, by: u8) -> (shifted: Bitboard)
    requires
        by < 64,
    ensures
        shifted == bitboard >> by,
        forall|square: Square| #[trigger]
            is_member(shifted, square) == (square + by < 64 && is_member(
                bitboard,
                (square + by) as Square,
            )),
{
    proof {
        assert forall|square: Square| #[trigger]
            is_member(bitboard >> by, square) == (square + by < 64 && is_member(
                bitboard,
                (square + by) as Square,
            )) by {
            lemma_shifted_bits(bitboard, by, square);
        }
    }
    bitboard >> by
}

/// Adds the members of `other` to `target`.
pub fn union_assign(target: &mut Bitboard, other: Bitboard)
    ensures
        *final(target) == *old(target) | other,
        squares(*final(target)) == squares(*old(target)).union(squares(other)),
{
    *target = union(*target, other);
}

/// Keeps of the members of `target` those that are members of `other` too.
pub fn intersection_assign(target: &mut Bitboard, other: Bitboard)
    ensures
        *final(target) == *old(target) & other,
        squares(*final(target)) == squares(*old(target)).intersect(squares(other)),
{
    *target = intersection(*target, other);
}

/// Leaves in `target` the squares that were members of exactly one of
/// `target` and `other`.
pub fn symmetric_difference_assign(target: &mut Bitboard, other: Bitboard)
    ensures
        *final(target) == *old(target) ^ other,
        squares(*final(target)) == squares(*old(target)).difference(squares(other)).union(
            squares(other).difference(squares(*old(target))),
        ),
{
    *target = symmetric_difference(*target, other);
}

/// Moves every member of `target` `by` squares up.
pub fn shift_left_assign(target: &mut Bitboard, by: u8)
    requires
        by < 64,
    ensures
        *final(target) == *old(target) << by,
        forall|square: Square| #[trigger]
            is_member(*final(target), square) == (by <= square < 64 && is_member(
                *old(target),
                (square - by) as Square,
            )),
{
    *target = shift_left(*target, by);
}

/// Moves every member of `target` `by` squares down.
pub fn shift_right_assign(target: &mut Bitboard, by: u8)
    requires
        by < 64,
    ensures
        *final(target) == *old(target) >> by,
        forall|square: Square| #[trigger]
            is_member(*final(target), square) == (square + by < 64 && is_member(
                *old(target),
                (square + by) as Square,
            )),
{
    *target = shift_right(*target, by);
}

/// The square shown in cell `cell` of the grid, where the cells are counted
/// row by row from the top left: the top row is rank 8, the left column is
/// file A.
pub open spec fn grid_square(cell: int) -> Square
    recommends
        0 <= cell < 64,
{
    ((7 - cell / 8) * 8 + cell % 8) as Square
}

/// The character at place `at` of the grid of `bitboard`.
///
/// Each cell takes two characters.  The first is a line break in front of
/// the first cell of a row and a blank in front of the others; the second is
/// `1` for a member and `.` for any other square.
pub open spec fn grid_char(bitboard: Bitboard, at: int) -> char
    recommends
        0 <= at < 128,
{
    if at % 2 == 0 {
        if (at / 2) % 8 == 0 {
            '\n'
        } else {
            ' '
        }
    } else if is_member(bitboard, grid_square(at / 2)) {
        '1'
    } else {
        '.'
    }
}

/// The grid of `bitboard`: eight rows of eight cells, rank 8 first.
pub open spec fn grid(bitboard: Bitboard) -> Seq<char> {
    Seq::new(128, |at: int| grid_char(bitboard, at))
}

/// A bitboard together with its rendering as a grid.
#[derive(Clone, Copy, PartialEq, Eq, Structural)]
pub struct BitboardWrapper(pub Bitboard);

impl BitboardWrapper {
    /// The bitboard drawn as a grid, for test output and inspection.
    ///
    /// The board is mirrored first, so that reading its bits from the
    /// highest to the lowest visits the squares row by row from A8 to H1.
    pub fn render(&self) -> (text: String)
        ensures
            text@ == grid(self.0),
    {
        let mirrored = mirror(self.0);
        let mut text = String::new();
        let mut cell: u8 = 0;
        proof {
            reveal_strlit("\n");
            reveal_strlit(" ");
            reveal_strlit("1");
            reveal_strlit(".");
        }
        while cell < 64
            invariant
                cell <= 64,
                is_mirror_image(self.0, mirrored),
                text@.len() == 2 * cell,
                forall|at: int| 0 <= at < 2 * cell ==> text@[at] == grid_char(self.0, at),
                "\n"@ == seq!['\n'],
                " "@ == seq![' '],
                "1"@ == seq!['1'],
                "."@ == seq!['.'],
            decreases 64 - cell,
        {
            let ghost before = text@;
            text.append(if cell % 8 == 0 { "\n" } else { " " });
            let member = is_set(mirrored, 63 - cell);
            proof {
                let shown = (63 - cell) as Square;
                assert(mirrored_square(shown) == grid_square(cell as int));
                assert(is_member(mirrored, shown) == is_member(self.0, mirrored_square(shown)));
            }
            text.append(if member { "1" } else { "." });
            assert(text@.len() == 2 * cell + 2);
            assert(forall|at: int| 0 <= at < 2 * cell ==> text@[at] == before[at]);
            assert(text@[2 * cell] == grid_char(self.0, 2 * cell));
            assert(text@[2 * cell + 1] == grid_char(self.0, 2 * cell + 1));
            cell += 1;
        }
        assert(text@ =~= grid(self.0));
        text
    }
}

} // verus!
