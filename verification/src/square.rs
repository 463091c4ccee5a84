//! Squares: the 64 cells of the board as a linear index.
//!
//! The numbering is fixed once for the whole crate: a square is eight times
//! its rank plus its file, so that square 0 is A1, square 7 is H1, square 8 is
//! A2 and square 63 is H8.  Bit `i` of a bitboard stands for square `i`.

use vstd::prelude::*;
use vstd::string::StringExecFns;
use crate::file::{File, FileWrapper, file_letter, is_file};
use crate::rank::{Rank, RankWrapper, rank_digit, is_rank};

verus! {

/// A cell of the board, counted from 0 (A1) to 63 (H8).
pub type Square = u8;

pub const A1: Square = 0;

pub const A2: Square = 8;

pub const A3: Square = 16;

pub const A4: Square = 24;

pub const A5: Square = 32;

pub const A6: Square = 40;

pub const A7: Square = 48;

pub const A8: Square = 56;

pub const B1: Square = 1;

pub const B2: Square = 9;

pub const B3: Square = 17;

pub const B4: Square = 25;

pub const B5: Square = 33;

pub const B6: Square = 41;

pub const B7: Square = 49;

pub const B8: Square = 57;

pub const C1: Square = 2;

pub const C2: Square = 10;

pub const C3: Square = 18;

pub const C4: Square = 26;

pub const C5: Square = 34;

pub const C6: Square = 42;

pub const C7: Square = 50;

pub const C8: Square = 58;

pub const D1: Square = 3;

pub const D2: Square = 11;

pub const D3: Square = 19;

pub const D4: Square = 27;

pub const D5: Square = 35;

pub const D6: Square = 43;

pub const D7: Square = 51;

pub const D8: Square = 59;

pub const E1: Square = 4;

pub const E2: Square = 12;

pub const E3: Square = 20;

pub const E4: Square = 28;

pub const E5: Square = 36;

pub const E6: Square = 44;

pub const E7: Square = 52;

pub const E8: Square = 60;

pub const F1: Square = 5;

pub const F2: Square = 13;

pub const F3: Square = 21;

pub const F4: Square = 29;

pub const F5: Square = 37;

pub const F6: Square = 45;

pub const F7: Square = 53;

pub const F8: Square = 61;

pub const G1: Square = 6;

pub const G2: Square = 14;

pub const G3: Square = 22;

pub const G4: Square = 30;

pub const G5: Square = 38;

pub const G6: Square = 46;

pub const G7: Square = 54;

pub const G8: Square = 62;

pub const H1: Square = 7;

pub const H2: Square = 15;

pub const H3: Square = 23;

pub const H4: Square = 31;

pub const H5: Square = 39;

pub const H6: Square = 47;

pub const H7: Square = 55;

pub const H8: Square = 63;

/// Whether `square` names one of the 64 cells.
pub open spec fn is_square(square: Square) -> bool {
    square < 64
}

/// The square in column `file` of row `rank`.
pub open spec fn spec_compose(file: File, rank: Rank) -> Square
    recommends
        is_file(file),
        is_rank(rank),
{
    (rank * 8 + file) as Square
}

/// The column of `square`.
pub open spec fn spec_file(square: Square) -> File {
    square % 8
}

/// The row of `square`.
pub open spec fn spec_rank(square: Square) -> Rank {
    square / 8
}

/// The column and the row of `square`.
pub open spec fn spec_decompose(square: Square) -> (File, Rank) {
    (spec_file(square), spec_rank(square))
}

/// Creates a square from a file and a rank.
///
/// Both coordinates must lie in their domain; nothing is checked at run time.
#[verifier::when_used_as_spec(spec_compose)]
pub fn compose(file: File, rank: Rank) -> (square: Square)
    requires
        is_file(file),
        is_rank(rank),
    ensures
        square == spec_compose(file, rank),
        square == rank * 8 + file,
        is_square(square),
{
    rank * 8 + file
}

/// Returns the file of a square.
#[verifier::when_used_as_spec(spec_file)]
pub fn file(square: Square) -> (file: File)
    ensures
        file == spec_file(square),
        is_file(file),
{
    square % 8
}

/// Returns the rank of a square.
#[verifier::when_used_as_spec(spec_rank)]
pub fn rank(square: Square) -> (rank: Rank)
    ensures
        rank == spec_rank(square),
        is_square(square) <==> is_rank(rank),
{
    square / 8
}

/// Takes a square apart into its file and its rank.
#[verifier::when_used_as_spec(spec_decompose)]
pub fn decompose(square: Square) -> (parts: (File, Rank))
    ensures
        parts == spec_decompose(square),
        parts.0 == file(square),
        parts.1 == rank(square),
{
    (file(square), rank(square))
}

/// Taking apart the square composed from a file and a rank gives that file
/// and that rank back.
pub proof fn lemma_decompose_compose(file: File, rank: Rank)
    requires
        is_file(file),
        is_rank(rank),
    ensures
        decompose(compose(file, rank)) == (file, rank),
        self::file(compose(file, rank)) == file,
        self::rank(compose(file, rank)) == rank,
{
}

/// Composing the file and the rank of a square gives that square back.
pub proof fn lemma_compose_decompose(square: Square)
    requires
        is_square(square),
    ensures
        is_file(file(square)),
        is_rank(rank(square)),
        compose(file(square), rank(square)) == square,
{
}

/// Two cells with different coordinates are different squares.
pub proof fn lemma_compose_injective(file1: File, rank1: Rank, file2: File, rank2: Rank)
    requires
        is_file(file1),
        is_rank(rank1),
        is_file(file2),
        is_rank(rank2),
        compose(file1, rank1) == compose(file2, rank2),
    ensures
        file1 == file2,
        rank1 == rank2,
{
}

/// A square together with its human-readable rendering.
#[derive(Clone, Copy, PartialEq, Eq, Structural)]
pub struct SquareWrapper(pub Square);

impl SquareWrapper {
    /// Whether the wrapped value names one of the 64 cells.
    pub open spec fn wf(&self) -> bool {
        is_square(self.0)
    }

    /// The square's name: the letter of its file, then the digit of its
    /// rank, as in `"E4"`.
    pub fn render(&self) -> (text: String)
        requires
            self.wf(),
        ensures
            text@ == seq![file_letter(file(self.0)), rank_digit(rank(self.0))],
    {
        let letter = FileWrapper(file(self.0)).render();
        let digit = RankWrapper(rank(self.0)).render();
        let text = letter.concat(digit.as_str());
        assert(text@ =~= seq![file_letter(file(self.0)), rank_digit(rank(self.0))]);
        text
    }
}

} // verus!
