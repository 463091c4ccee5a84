//! Bit-level board primitives for an 8×8 grid game: files, ranks, squares and
//! 64-bit sets of squares.
//!
//! # Numbering
//!
//! One numbering is used throughout.  Files count from 0 (file A) to 7
//! (file H), ranks from 0 (rank 1) to 7 (rank 8), and a square is eight times
//! its rank plus its file: A1 is 0, H1 is 7, A2 is 8, H8 is 63.  Bit `i` of a
//! bitboard stands for square `i`.
//!
//! # Preconditions
//!
//! The operations are hot-path primitives and never test their arguments at
//! run time.  Where an argument must lie in a domain (a square below 64, a
//! board that is not empty), the function says so in its `requires` clause:
//! verified callers are held to it statically, and callers outside
//! verification have to see to it themselves.  No operation answers a misuse
//! with a made-up result.  The module `position` offers the same coordinates
//! as enumerations, which cannot leave their domain, with checked
//! constructors from plain numbers.

pub mod bit_facts;
pub mod bitboard;
pub mod debruijn;
pub mod file;
pub mod position;
pub mod rank;
pub mod square;
