use chessboard::bitboard;
use chessboard::square;

#[test]
fn the_empty_board() {
    let board = bitboard::empty();
    assert_eq!(0, board);
    assert_eq!(0, bitboard::cardinality(board));
    assert!(bitboard::is_empty(board));
    assert!(!bitboard::is_universal(board));
    assert!(!bitboard::is_single(board));
    for at in 0..64u8 {
        assert!(!bitboard::is_set(board, at));
    }
}

#[test]
fn the_universal_board() {
    let board = bitboard::universal();
    assert_eq!(u64::MAX, board);
    assert_eq!(64, bitboard::cardinality(board));
    assert!(bitboard::is_universal(board));
    assert!(!bitboard::is_empty(board));
    assert!(!bitboard::is_single(board));
    assert_eq!(0, bitboard::bitscan_forward(board));
    assert_eq!(63, bitboard::bitscan_reverse(board));
    for at in 0..64u8 {
        assert!(bitboard::is_set(board, at));
    }
}

#[test]
fn the_board_of_the_first_and_the_last_square() {
    let board = bitboard::set(bitboard::set(bitboard::empty(), 0), 63);
    assert_eq!(0x8000_0000_0000_0001, board);
    assert_eq!(2, bitboard::cardinality(board));
    assert!(!bitboard::is_single(board));
    assert_eq!(0, bitboard::bitscan_forward(board));
    assert_eq!(63, bitboard::bitscan_reverse(board));
}

#[test]
fn the_board_of_square_42() {
    let board = bitboard::set(bitboard::empty(), 42);
    assert_eq!(1 << 42, board);
    assert_eq!(square::C6, 42);
    assert!(bitboard::is_single(board));
    assert_eq!(1, bitboard::cardinality(board));
    assert_eq!(42, bitboard::bitscan_forward(board));
    assert_eq!(42, bitboard::bitscan_reverse(board));
}

#[test]
fn mirror_swaps_the_corners_of_the_first_rank() {
    let a1 = bitboard::set(bitboard::empty(), square::A1);
    let h1 = bitboard::set(bitboard::empty(), square::H1);
    assert_eq!(h1, bitboard::mirror(a1));
    assert_eq!(a1, bitboard::mirror(h1));
    assert_eq!(0, bitboard::mirror(a1) >> 8);
    assert_eq!(0, bitboard::mirror(h1) >> 8);
}

#[test]
fn mirror_of_each_single_square() {
    for rank in 0..8u8 {
        for file in 0..8u8 {
            let here = bitboard::set(bitboard::empty(), square::compose(file, rank));
            let there = bitboard::set(bitboard::empty(), square::compose(7 - file, rank));
            assert_eq!(there, bitboard::mirror(here));
        }
    }
}

#[test]
fn the_corner_squares_have_their_numbers() {
    assert_eq!(0, square::A1);
    assert_eq!(7, square::H1);
    assert_eq!(8, square::A2);
    assert_eq!(56, square::A8);
    assert_eq!(63, square::H8);
}
