use chessboard::bitboard::{self, BitboardWrapper};
use chessboard::rank::RankWrapper;
use chessboard::square::{self, SquareWrapper};

#[test]
fn files_are_written_with_letters() {
    let letters = ["A", "B", "C", "D", "E", "F", "G", "H"];
    for at in 0..8u8 {
        assert_eq!(letters[at as usize], chessboard::file::FileWrapper(at).render());
    }
}

#[test]
fn ranks_are_written_with_digits_from_one() {
    let digits = ["1", "2", "3", "4", "5", "6", "7", "8"];
    for at in 0..8u8 {
        assert_eq!(digits[at as usize], RankWrapper(at).render());
    }
}

#[test]
fn squares_are_written_as_letter_and_digit() {
    assert_eq!("A1", SquareWrapper(square::A1).render());
    assert_eq!("E4", SquareWrapper(square::E4).render());
    assert_eq!("C6", SquareWrapper(42).render());
    assert_eq!("H1", SquareWrapper(7).render());
    assert_eq!("A8", SquareWrapper(56).render());
    assert_eq!("H8", SquareWrapper(square::H8).render());
}

#[test]
fn the_grid_of_the_empty_board() {
    let row = "\n. . . . . . . .";
    assert_eq!(row.repeat(8), BitboardWrapper(bitboard::EMPTY).render());
}

#[test]
fn the_grid_of_the_universal_board() {
    let row = "\n1 1 1 1 1 1 1 1";
    assert_eq!(row.repeat(8), BitboardWrapper(bitboard::UNIVERSAL).render());
}

#[test]
fn the_grid_shows_rank_eight_first_and_file_a_on_the_left() {
    let a8 = bitboard::set(bitboard::EMPTY, square::A8);
    let text = BitboardWrapper(a8).render();
    assert_eq!(128, text.len());
    assert!(text.starts_with("\n1 . . . . . . .\n"));
    let h1 = bitboard::set(bitboard::EMPTY, square::H1);
    assert!(BitboardWrapper(h1).render().ends_with("\n. . . . . . . 1"));
}

#[test]
fn the_grid_of_a_drawing() {
    let expected = "\n. . . 1 1 1 1 .\n. . 1 . . . 1 .\n. . 1 . . . 1 .\n. . . 1 . . 1 .\n. . . . 1 1 1 .\n. . . . 1 . 1 .\n. . . 1 . . 1 .\n. . 1 . . . 1 .";
    assert_eq!(expected, BitboardWrapper(0x7844_4448_7050_4844).render());
}
