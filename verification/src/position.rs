//! Named coordinates: files, ranks and squares as enumerations.
//!
//! These are the checked counterparts of the plain integers of the modules
//! `file`, `rank` and `square`.  A value of one of these types always lies in
//! its domain, and its number is the integer that those modules use for it:
//! `Square::A1` is square 0, `Square::H1` is square 7 and `Square::H8` is
//! square 63.

use std::ops::{Shl, ShlAssign, Shr, ShrAssign};
use vstd::prelude::*;
use vstd::std_specs::ops::{ShlSpecImpl, ShrSpecImpl};
use crate::file::is_file;
use crate::rank::is_rank;
use crate::square::{is_square, spec_compose, spec_file, spec_rank};

verus! {

/// A board column.
#[derive(Clone, Copy, Debug, PartialEq, Eq, Structural)]
pub enum File {
    A,
    B,
    C,
    D,
    E,
    F,
    G,
    H,
}

/// A board row.
#[derive(Clone, Copy, Debug, PartialEq, Eq, Structural)]
pub enum Rank {
    One,
    Two,
    Three,
    Four,
    Five,
    Six,
    Seven,
    Eight,
}

/// A cell of the board.
#[derive(Clone, Copy, Debug, PartialEq, Eq, Structural)]
pub enum Square {
    A1, A2, A3, A4, A5, A6, A7, A8,
    B1, B2, B3, B4, B5, B6, B7, B8,
    C1, C2, C3, C4, C5, C6, C7, C8,
    D1, D2, D3, D4, D5, D6, D7, D8,
    E1, E2, E3, E4, E5, E6, E7, E8,
    F1, F2, F3, F4, F5, F6, F7, F8,
    G1, G2, G3, G4, G5, G6, G7, G8,
    H1, H2, H3, H4, H5, H6, H7, H8,
}

impl File {
    /// The number of this file, from 0 to 7.
    pub open spec fn spec_index(self) -> u8 {
        match self {
            File::A => 0,
            File::B => 1,
            File::C => 2,
            File::D => 3,
            File::E => 4,
            File::F => 5,
            File::G => 6,
            File::H => 7,
        }
    }

    /// The file with the number `index`.
    pub open spec fn spec_of_index(index: u8) -> File
        recommends
            is_file(index),
    {
        if index == 0 {
            File::A
        } else if index == 1 {
            File::B
        } else if index == 2 {
            File::C
        } else if index == 3 {
            File::D
        } else if index == 4 {
            File::E
        } else if index == 5 {
            File::F
        } else if index == 6 {
            File::G
        } else {
            File::H
        }
    }

    /// Returns the number of this file, from 0 to 7.
    #[verifier::when_used_as_spec(spec_index)]
    pub fn index(self) -> (index: u8)
        ensures
            index == self.spec_index(),
            is_file(index),
    {
        match self {
            File::A => 0,
            File::B => 1,
            File::C => 2,
            File::D => 3,
            File::E => 4,
            File::F => 5,
            File::G => 6,
            File::H => 7,
        }
    }

    /// Returns the file with the number `index`, which must be in the
    /// domain; nothing is checked at run time.
    #[verifier::when_used_as_spec(spec_of_index)]
    pub fn of_index(index: u8) -> (file: File)
        requires
            is_file(index),
        ensures
            file == File::spec_of_index(index),
            file.spec_index() == index,
    {
        match index {
            0 => File::A,
            1 => File::B,
            2 => File::C,
            3 => File::D,
            4 => File::E,
            5 => File::F,
            6 => File::G,
            _ => File::H,
        }
    }

    /// Returns the file with the number `index`, or `None` where `index`
    /// is not below 8.
    pub fn from_index(index: u8) -> (found: Option<File>)
        ensures
            is_file(index) <==> found.is_some(),
            is_file(index) ==> found == Some(File::spec_of_index(index)),
            is_file(index) ==> found.unwrap().spec_index() == index,
    {
        if index < 8 {
            Some(File::of_index(index))
        } else {
            None
        }
    }
}


impl Rank {
    /// The number of this rank, from 0 to 7.
    pub open spec fn spec_index(self) -> u8 {
        match self {
            Rank::One => 0,
            Rank::Two => 1,
            Rank::Three => 2,
            Rank::Four => 3,
            Rank::Five => 4,
            Rank::Six => 5,
            Rank::Seven => 6,
            Rank::Eight => 7,
        }
    }

    /// The rank with the number `index`.
    pub open spec fn spec_of_index(index: u8) -> Rank
        recommends
            is_rank(index),
    {
        if index == 0 {
            Rank::One
        } else if index == 1 {
            Rank::Two
        } else if index == 2 {
            Rank::Three
        } else if index == 3 {
            Rank::Four
        } else if index == 4 {
            Rank::Five
        } else if index == 5 {
            Rank::Six
        } else if index == 6 {
            Rank::Seven
        } else {
            Rank::Eight
        }
    }

    /// Returns the number of this rank, from 0 to 7.
    #[verifier::when_used_as_spec(spec_index)]
    pub fn index(self) -> (index: u8)
        ensures
            index == self.spec_index(),
            is_rank(index),
    {
        match self {
            Rank::One => 0,
            Rank::Two => 1,
            Rank::Three => 2,
            Rank::Four => 3,
            Rank::Five => 4,
            Rank::Six => 5,
            Rank::Seven => 6,
            Rank::Eight => 7,
        }
    }

    /// Returns the rank with the number `index`, which must be in the
    /// domain; nothing is checked at run time.
    #[verifier::when_used_as_spec(spec_of_index)]
    pub fn of_index(index: u8) -> (rank: Rank)
        requires
            is_rank(index),
        ensures
            rank == Rank::spec_of_index(index),
            rank.spec_index() == index,
    {
        match index {
            0 => Rank::One,
            1 => Rank::Two,
            2 => Rank::Three,
            3 => Rank::Four,
            4 => Rank::Five,
            5 => Rank::Six,
            6 => Rank::Seven,
            _ => Rank::Eight,
        }
    }

    /// Returns the rank with the number `index`, or `None` where `index`
    /// is not below 8.
    pub fn from_index(index: u8) -> (found: Option<Rank>)
        ensures
            is_rank(index) <==> found.is_some(),
            is_rank(index) ==> found == Some(Rank::spec_of_index(index)),
            is_rank(index) ==> found.unwrap().spec_index() == index,
    {
        if index < 8 {
            Some(Rank::of_index(index))
        } else {
            None
        }
    }
}

impl Square {
    /// The number of this square, from 0 to 63.
    pub open spec fn spec_index(self) -> u8 {
        match self {
            Square::A1 => 0,
            Square::B1 => 1,
            Square::C1 => 2,
            Square::D1 => 3,
            Square::E1 => 4,
            Square::F1 => 5,
            Square::G1 => 6,
            Square::H1 => 7,
            Square::A2 => 8,
            Square::B2 => 9,
            Square::C2 => 10,
            Square::D2 => 11,
            Square::E2 => 12,
            Square::F2 => 13,
            Square::G2 => 14,
            Square::H2 => 15,
            Square::A3 => 16,
            Square::B3 => 17,
            Square::C3 => 18,
            Square::D3 => 19,
            Square::E3 => 20,
            Square::F3 => 21,
            Square::G3 => 22,
            Square::H3 => 23,
            Square::A4 => 24,
            Square::B4 => 25,
            Square::C4 => 26,
            Square::D4 => 27,
            Square::E4 => 28,
            Square::F4 => 29,
            Square::G4 => 30,
            Square::H4 => 31,
            Square::A5 => 32,
            Square::B5 => 33,
            Square::C5 => 34,
            Square::D5 => 35,
            Square::E5 => 36,
            Square::F5 => 37,
            Square::G5 => 38,
            Square::H5 => 39,
            Square::A6 => 40,
            Square::B6 => 41,
            Square::C6 => 42,
            Square::D6 => 43,
            Square::E6 => 44,
            Square::F6 => 45,
            Square::G6 => 46,
            Square::H6 => 47,
            Square::A7 => 48,
            Square::B7 => 49,
            Square::C7 => 50,
            Square::D7 => 51,
            Square::E7 => 52,
            Square::F7 => 53,
            Square::G7 => 54,
            Square::H7 => 55,
            Square::A8 => 56,
            Square::B8 => 57,
            Square::C8 => 58,
            Square::D8 => 59,
            Square::E8 => 60,
            Square::F8 => 61,
            Square::G8 => 62,
            Square::H8 => 63,
        }
    }

    /// The square with the number `index`.
    pub open spec fn spec_of_index(index: u8) -> Square
        recommends
            is_square(index),
    {
        if index == 0 {
            Square::A1
        } else if index == 1 {
            Square::B1
        } else if index == 2 {
            Square::C1
        } else if index == 3 {
            Square::D1
        } else if index == 4 {
            Square::E1
        } else if index == 5 {
            Square::F1
        } else if index == 6 {
            Square::G1
        } else if index == 7 {
            Square::H1
        } else if index == 8 {
            Square::A2
        } else if index == 9 {
            Square::B2
        } else if index == 10 {
            Square::C2
        } else if index == 11 {
            Square::D2
        } else if index == 12 {
            Square::E2
        } else if index == 13 {
            Square::F2
        } else if index == 14 {
            Square::G2
        } else if index == 15 {
            Square::H2
        } else if index == 16 {
            Square::A3
        } else if index == 17 {
            Square::B3
        } else if index == 18 {
            Square::C3
        } else if index == 19 {
            Square::D3
        } else if index == 20 {
            Square::E3
        } else if index == 21 {
            Square::F3
        } else if index == 22 {
            Square::G3
        } else if index == 23 {
            Square::H3
        } else if index == 24 {
            Square::A4
        } else if index == 25 {
            Square::B4
        } else if index == 26 {
            Square::C4
        } else if index == 27 {
            Square::D4
        } else if index == 28 {
            Square::E4
        } else if index == 29 {
            Square::F4
        } else if index == 30 {
            Square::G4
        } else if index == 31 {
            Square::H4
        } else if index == 32 {
            Square::A5
        } else if index == 33 {
            Square::B5
        } else if index == 34 {
            Square::C5
        } else if index == 35 {
            Square::D5
        } else if index == 36 {
            Square::E5
        } else if index == 37 {
            Square::F5
        } else if index == 38 {
            Square::G5
        } else if index == 39 {
            Square::H5
        } else if index == 40 {
            Square::A6
        } else if index == 41 {
            Square::B6
        } else if index == 42 {
            Square::C6
        } else if index == 43 {
            Square::D6
        } else if index == 44 {
            Square::E6
        } else if index == 45 {
            Square::F6
        } else if index == 46 {
            Square::G6
        } else if index == 47 {
            Square::H6
        } else if index == 48 {
            Square::A7
        } else if index == 49 {
            Square::B7
        } else if index == 50 {
            Square::C7
        } else if index == 51 {
            Square::D7
        } else if index == 52 {
            Square::E7
        } else if index == 53 {
            Square::F7
        } else if index == 54 {
            Square::G7
        } else if index == 55 {
            Square::H7
        } else if index == 56 {
            Square::A8
        } else if index == 57 {
            Square::B8
        } else if index == 58 {
            Square::C8
        } else if index == 59 {
            Square::D8
        } else if index == 60 {
            Square::E8
        } else if index == 61 {
            Square::F8
        } else if index == 62 {
            Square::G8
        } else {
            Square::H8
        }
    }

    /// The square in column `file` of row `rank`.
    pub open spec fn spec_new(file: File, rank: Rank) -> Square {
        Square::spec_of_index(spec_compose(file.spec_index(), rank.spec_index()))
    }

    /// The column of this square.
    pub open spec fn spec_file(&self) -> File {
        File::spec_of_index(spec_file(self.spec_index()))
    }

    /// The row of this square.
    pub open spec fn spec_rank(&self) -> Rank {
        Rank::spec_of_index(spec_rank(self.spec_index()))
    }

    /// Returns the number of this square, from 0 to 63.
    #[verifier::when_used_as_spec(spec_index)]
    pub fn index(self) -> (index: u8)
        ensures
            index == self.spec_index(),
            is_square(index),
    {
        match self {
            Square::A1 => 0,
            Square::B1 => 1,
            Square::C1 => 2,
            Square::D1 => 3,
            Square::E1 => 4,
            Square::F1 => 5,
            Square::G1 => 6,
            Square::H1 => 7,
            Square::A2 => 8,
            Square::B2 => 9,
            Square::C2 => 10,
            Square::D2 => 11,
            Square::E2 => 12,
            Square::F2 => 13,
            Square::G2 => 14,
            Square::H2 => 15,
            Square::A3 => 16,
            Square::B3 => 17,
            Square::C3 => 18,
            Square::D3 => 19,
            Square::E3 => 20,
            Square::F3 => 21,
            Square::G3 => 22,
            Square::H3 => 23,
            Square::A4 => 24,
            Square::B4 => 25,
            Square::C4 => 26,
            Square::D4 => 27,
            Square::E4 => 28,
            Square::F4 => 29,
            Square::G4 => 30,
            Square::H4 => 31,
            Square::A5 => 32,
            Square::B5 => 33,
            Square::C5 => 34,
            Square::D5 => 35,
            Square::E5 => 36,
            Square::F5 => 37,
            Square::G5 => 38,
            Square::H5 => 39,
            Square::A6 => 40,
            Square::B6 => 41,
            Square::C6 => 42,
            Square::D6 => 43,
            Square::E6 => 44,
            Square::F6 => 45,
            Square::G6 => 46,
            Square::H6 => 47,
            Square::A7 => 48,
            Square::B7 => 49,
            Square::C7 => 50,
            Square::D7 => 51,
            Square::E7 => 52,
            Square::F7 => 53,
            Square::G7 => 54,
            Square::H7 => 55,
            Square::A8 => 56,
            Square::B8 => 57,
            Square::C8 => 58,
            Square::D8 => 59,
            Square::E8 => 60,
            Square::F8 => 61,
            Square::G8 => 62,
            Square::H8 => 63,
        }
    }

    /// Returns the square with the number `index`, which must be below 64;
    /// nothing is checked at run time.
    #[verifier::when_used_as_spec(spec_of_index)]
    pub fn of_index(index: u8) -> (square: Square)
        requires
            is_square(index),
        ensures
            square == Square::spec_of_index(index),
            square.spec_index() == index,
    {
        match index {
            0 => Square::A1,
            1 => Square::B1,
            2 => Square::C1,
            3 => Square::D1,
            4 => Square::E1,
            5 => Square::F1,
            6 => Square::G1,
            7 => Square::H1,
            8 => Square::A2,
            9 => Square::B2,
            10 => Square::C2,
            11 => Square::D2,
            12 => Square::E2,
            13 => Square::F2,
            14 => Square::G2,
            15 => Square::H2,
            16 => Square::A3,
            17 => Square::B3,
            18 => Square::C3,
            19 => Square::D3,
            20 => Square::E3,
            21 => Square::F3,
            22 => Square::G3,
            23 => Square::H3,
            24 => Square::A4,
            25 => Square::B4,
            26 => Square::C4,
            27 => Square::D4,
            28 => Square::E4,
            29 => Square::F4,
            30 => Square::G4,
            31 => Square::H4,
            32 => Square::A5,
            33 => Square::B5,
            34 => Square::C5,
            35 => Square::D5,
            36 => Square::E5,
            37 => Square::F5,
            38 => Square::G5,
            39 => Square::H5,
            40 => Square::A6,
            41 => Square::B6,
            42 => Square::C6,
            43 => Square::D6,
            44 => Square::E6,
            45 => Square::F6,
            46 => Square::G6,
            47 => Square::H6,
            48 => Square::A7,
            49 => Square::B7,
            50 => Square::C7,
            51 => Square::D7,
            52 => Square::E7,
            53 => Square::F7,
            54 => Square::G7,
            55 => Square::H7,
            56 => Square::A8,
            57 => Square::B8,
            58 => Square::C8,
            59 => Square::D8,
            60 => Square::E8,
            61 => Square::F8,
            62 => Square::G8,
            _ => Square::H8,
        }
    }

    /// Returns the square with the number `index`, or `None` where `index`
    /// is not below 64.
    pub fn from_index(index: u8) -> (found: Option<Square>)
        ensures
            is_square(index) <==> found.is_some(),
            is_square(index) ==> found == Some(Square::spec_of_index(index)),
            is_square(index) ==> found.unwrap().spec_index() == index,
    {
        if index < 64 {
            Some(Square::of_index(index))
        } else {
            None
        }
    }

    /// Creates a new square.
    #[verifier::when_used_as_spec(spec_new)]
    pub fn new(file: File, rank: Rank) -> (square: Square)
        ensures
            square == Square::spec_new(file, rank),
            square.spec_index() == spec_compose(file.spec_index(), rank.spec_index()),
            square.spec_file() == file,
            square.spec_rank() == rank,
    {
        Square::of_index(rank.index() * 8 + file.index())
    }

    /// Returns the file.
    #[verifier::when_used_as_spec(spec_file)]
    pub fn file(&self) -> (file: File)
        ensures
            file == self.spec_file(),
            file.spec_index() == spec_file(self.spec_index()),
    {
        File::of_index(self.index() % 8)
    }

    /// Returns the rank.
    #[verifier::when_used_as_spec(spec_rank)]
    pub fn rank(&self) -> (rank: Rank)
        ensures
            rank == self.spec_rank(),
            rank.spec_index() == spec_rank(self.spec_index()),
    {
        Rank::of_index(self.index() / 8)
    }

    /// Every square is the square of its number, and every number below 64
    /// is the number of its square.
    pub proof fn lemma_index_round_trip(square: Square, index: u8)
        ensures
            Square::of_index(square.index()) == square,
            is_square(index) ==> Square::of_index(index).index() == index,
    {
    }

    /// The square made from a file and a rank has that file and that rank,
    /// and every square is made from its own file and rank.
    pub proof fn lemma_new_round_trip(square: Square, file: File, rank: Rank)
        ensures
            Square::new(file, rank).file() == file,
            Square::new(file, rank).rank() == rank,
            Square::new(square.file(), square.rank()) == square,
    {
    }
}

impl ShlSpecImpl<u8> for Square {
    open spec fn obeys_shl_spec() -> bool {
        true
    }

    open spec fn shl_req(self, rhs: u8) -> bool {
        self.spec_index() + rhs < 64
    }

    open spec fn shl_spec(self, rhs: u8) -> Square {
        Square::spec_of_index((self.spec_index() + rhs) as u8)
    }
}

/// Stepping up: `square << n` is the square whose number is `n` more, which
/// must still be below 64.  One step leads to the next file, or from file H
/// to file A of the next rank; eight steps lead to the same file of the next
/// rank.
impl Shl<u8> for Square {
    type Output = Square;

    fn shl(self, rhs: u8) -> (moved: Square) {
        Square::of_index(self.index() + rhs)
    }
}

/// Stepping up in place.
impl ShlAssign<u8> for Square {
    fn shl_assign(&mut self, rhs: u8)
        requires
            old(self).spec_index() + rhs < 64,
        ensures
            *final(self) == Square::spec_of_index((old(self).spec_index() + rhs) as u8),
            final(self).spec_index() == old(self).spec_index() + rhs,
    {
        *self = *self << rhs;
    }
}

impl ShrSpecImpl<u8> for Square {
    open spec fn obeys_shr_spec() -> bool {
        true
    }

    open spec fn shr_req(self, rhs: u8) -> bool {
        rhs <= self.spec_index()
    }

    open spec fn shr_spec(self, rhs: u8) -> Square {
        Square::spec_of_index((self.spec_index() - rhs) as u8)
    }
}

/// Stepping down: `square >> n` is the square whose number is `n` less,
/// which must not fall below 0.
impl Shr<u8> for Square {
    type Output = Square;

    fn shr(self, rhs: u8) -> (moved: Square) {
        Square::of_index(self.index() - rhs)
    }
}

/// Stepping down in place.
impl ShrAssign<u8> for Square {
    fn shr_assign(&mut self, rhs: u8)
        requires
            rhs <= old(self).spec_index(),
        ensures
            *final(self) == Square::spec_of_index((old(self).spec_index() - rhs) as u8),
            final(self).spec_index() == old(self).spec_index() - rhs,
    {
        *self = *self >> rhs;
    }
}

} // verus!
