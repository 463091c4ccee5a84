use chessboard::position::{File, Rank, Square};

#[test]
fn shl() {
    assert_eq!(Square::H2, Square::H1 << 8);
}

#[test]
fn shr() {
    assert_eq!(Square::D5, Square::D6 >> 8);
}

#[test]
fn new_position() {
    for (i, &(file, rank, square)) in [
        (File::A, Rank::One,   Square::A1),
        (File::A, Rank::Two,   Square::A2),
        (File::A, Rank::Three, Square::A3),
        (File::A, Rank::Four,  Square::A4),
        (File::A, Rank::Five,  Square::A5),
        (File::A, Rank::Six,   Square::A6),
        (File::A, Rank::Seven, Square::A7),
        (File::A, Rank::Eight, Square::A8),
        (File::B, Rank::One,   Square::B1),
        (File::B, Rank::Two,   Square::B2),
        (File::B, Rank::Three, Square::B3),
        (File::B, Rank::Four,  Square::B4),
        (File::B, Rank::Five,  Square::B5),
        (File::B, Rank::Six,   Square::B6),
        (File::B, Rank::Seven, Square::B7),
        (File::B, Rank::Eight, Square::B8),
        (File::C, Rank::One,   Square::C1),
        (File::C, Rank::Two,   Square::C2),
        (File::C, Rank::Three, Square::C3),
        (File::C, Rank::Four,  Square::C4),
        (File::C, Rank::Five,  Square::C5),
        (File::C, Rank::Six,   Square::C6),
        (File::C, Rank::Seven, Square::C7),
        (File::C, Rank::Eight, Square::C8),
        (File::D, Rank::One,   Square::D1),
        (File::D, Rank::Two,   Square::D2),
        (File::D, Rank::Three, Square::D3),
        (File::D, Rank::Four,  Square::D4),
        (File::D, Rank::Five,  Square::D5),
        (File::D, Rank::Six,   Square::D6),
        (File::D, Rank::Seven, Square::D7),
        (File::D, Rank::Eight, Square::D8),
        (File::F, Rank::One,   Square::F1),
        (File::F, Rank::Two,   Square::F2),
        (File::F, Rank::Three, Square::F3),
        (File::F, Rank::Four,  Square::F4),
        (File::F, Rank::Five,  Square::F5),
        (File::F, Rank::Six,   Square::F6),
        (File::F, Rank::Seven, Square::F7),
        (File::F, Rank::Eight, Square::F8),
        (File::G, Rank::One,   Square::G1),
        (File::G, Rank::Two,   Square::G2),
        (File::G, Rank::Three, Square::G3),
        (File::G, Rank::Four,  Square::G4),
        (File::G, Rank::Five,  Square::G5),
        (File::G, Rank::Six,   Square::G6),
        (File::G, Rank::Seven, Square::G7),
        (File::G, Rank::Eight, Square::G8),
        (File::H, Rank::One,   Square::H1),
        (File::H, Rank::Two,   Square::H2),
        (File::H, Rank::Three, Square::H3),
        (File::H, Rank::Four,  Square::H4),
        (File::H, Rank::Five,  Square::H5),
        (File::H, Rank::Six,   Square::H6),
        (File::H, Rank::Seven, Square::H7),
        (File::H, Rank::Eight, Square::H8),
    ]
    .iter()
    .enumerate()
    {
        let expected = square;
        let actual = Square::new(file, rank);

        assert_eq!(
            expected, actual,
            "Test {} failed : expected {:?}, actual {:?}",
            i, expected, actual
        );
    }
}

#[test]
fn extract_file() {
    for (i, &(square, file)) in [
        (Square::A1, File::A),
        (Square::A2, File::A),
        (Square::A3, File::A),
        (Square::A4, File::A),
        (Square::A5, File::A),
        (Square::A6, File::A),
        (Square::A7, File::A),
        (Square::A8, File::A),
        (Square::B1, File::B),
        (Square::B2, File::B),
        (Square::B3, File::B),
        (Square::B4, File::B),
        (Square::B5, File::B),
        (Square::B6, File::B),
        (Square::B7, File::B),
        (Square::B8, File::B),
        (Square::C1, File::C),
        (Square::C2, File::C),
        (Square::C3, File::C),
        (Square::C4, File::C),
        (Square::C5, File::C),
        (Square::C6, File::C),
        (Square::C7, File::C),
        (Square::C8, File::C),
        (Square::D1, File::D),
        (Square::D2, File::D),
        (Square::D3, File::D),
        (Square::D4, File::D),
        (Square::D5, File::D),
        (Square::D6, File::D),
        (Square::D7, File::D),
        (Square::D8, File::D),
        (Square::E1, File::E),
        (Square::E2, File::E),
        (Square::E3, File::E),
        (Square::E4, File::E),
        (Square::E5, File::E),
        (Square::E6, File::E),
        (Square::E7, File::E),
        (Square::E8, File::E),
        (Square::F1, File::F),
        (Square::F2, File::F),
        (Square::F3, File::F),
        (Square::F4, File::F),
        (Square::F5, File::F),
        (Square::F6, File::F),
        (Square::F7, File::F),
        (Square::F8, File::F),
        (Square::G1, File::G),
        (Square::G2, File::G),
        (Square::G3, File::G),
        (Square::G4, File::G),
        (Square::G5, File::G),
        (Square::G6, File::G),
        (Square::G7, File::G),
        (Square::G8, File::G),
        (Square::H1, File::H),
        (Square::H2, File::H),
        (Square::H3, File::H),
        (Square::H4, File::H),
        (Square::H5, File::H),
        (Square::H6, File::H),
        (Square::H7, File::H),
        (Square::H8, File::H),
    ]
    .iter()
    .enumerate()
    {
        let expected = file;
        let actual = square.file();

        assert_eq!(
            expected, actual,
            "Test {} failed : expected {:?}, actual {:?}",
            i, expected, actual
        );
    }
}

#[test]
fn extract_rank() {
    for (i, &(square, rank)) in [
        (Square::A1, Rank::One),
        (Square::A2, Rank::Two),
        (Square::A3, Rank::Three),
        (Square::A4, Rank::Four),
        (Square::A5, Rank::Five),
        (Square::A6, Rank::Six),
        (Square::A7, Rank::Seven),
        (Square::A8, Rank::Eight),
        (Square::B1, Rank::One),
        (Square::B2, Rank::Two),
        (Square::B3, Rank::Three),
        (Square::B4, Rank::Four),
        (Square::B5, Rank::Five),
        (Square::B6, Rank::Six),
        (Square::B7, Rank::Seven),
        (Square::B8, Rank::Eight),
        (Square::C1, Rank::One),
        (Square::C2, Rank::Two),
        (Square::C3, Rank::Three),
        (Square::C4, Rank::Four),
        (Square::C5, Rank::Five),
        (Square::C6, Rank::Six),
        (Square::C7, Rank::Seven),
        (Square::C8, Rank::Eight),
        (Square::D1, Rank::One),
        (Square::D2, Rank::Two),
        (Square::D3, Rank::Three),
        (Square::D4, Rank::Four),
        (Square::D5, Rank::Five),
        (Square::D6, Rank::Six),
        (Square::D7, Rank::Seven),
        (Square::D8, Rank::Eight),
        (Square::E1, Rank::One),
        (Square::E2, Rank::Two),
        (Square::E3, Rank::Three),
        (Square::E4, Rank::Four),
        (Square::E5, Rank::Five),
        (Square::E6, Rank::Six),
        (Square::E7, Rank::Seven),
        (Square::E8, Rank::Eight),
        (Square::F1, Rank::One),
        (Square::F2, Rank::Two),
        (Square::F3, Rank::Three),
        (Square::F4, Rank::Four),
        (Square::F5, Rank::Five),
        (Square::F6, Rank::Six),
        (Square::F7, Rank::Seven),
        (Square::F8, Rank::Eight),
        (Square::G1, Rank::One),
        (Square::G2, Rank::Two),
        (Square::G3, Rank::Three),
        (Square::G4, Rank::Four),
        (Square::G5, Rank::Five),
        (Square::G6, Rank::Six),
        (Square::G7, Rank::Seven),
        (Square::G8, Rank::Eight),
        (Square::H1, Rank::One),
        (Square::H2, Rank::Two),
        (Square::H3, Rank::Three),
        (Square::H4, Rank::Four),
        (Square::H5, Rank::Five),
        (Square::H6, Rank::Six),
        (Square::H7, Rank::Seven),
        (Square::H8, Rank::Eight),
    ]
    .iter()
    .enumerate()
    {
        let expected = rank;
        let actual = square.rank();

        assert_eq!(
            expected, actual,
            "Test {} failed : expected {:?}, actual {:?}",
            i, expected, actual
        );
    }
}

#[test]
fn squares_are_numbered_rank_by_rank_from_a1() {
    assert_eq!(0, Square::A1.index());
    assert_eq!(7, Square::H1.index());
    assert_eq!(8, Square::A2.index());
    assert_eq!(42, Square::C6.index());
    assert_eq!(56, Square::A8.index());
    assert_eq!(63, Square::H8.index());
    for index in 0..64u8 {
        let square = Square::of_index(index);
        assert_eq!(index, square.index());
        assert_eq!(index, chessboard::square::compose(square.file().index(), square.rank().index()));
        assert_eq!(Some(square), Square::from_index(index));
    }
}

#[test]
fn files_and_ranks_are_numbered_from_zero() {
    let files = [File::A, File::B, File::C, File::D, File::E, File::F, File::G, File::H];
    let ranks = [
        Rank::One,
        Rank::Two,
        Rank::Three,
        Rank::Four,
        Rank::Five,
        Rank::Six,
        Rank::Seven,
        Rank::Eight,
    ];
    for index in 0..8u8 {
        assert_eq!(index, files[index as usize].index());
        assert_eq!(index, ranks[index as usize].index());
        assert_eq!(files[index as usize], File::of_index(index));
        assert_eq!(ranks[index as usize], Rank::of_index(index));
        assert_eq!(Some(files[index as usize]), File::from_index(index));
        assert_eq!(Some(ranks[index as usize]), Rank::from_index(index));
    }
}

#[test]
fn numbers_out_of_the_domain_name_nothing() {
    assert_eq!(None, Square::from_index(64));
    assert_eq!(None, Square::from_index(255));
    assert_eq!(None, File::from_index(8));
    assert_eq!(None, Rank::from_index(8));
    assert_eq!(None, Rank::from_index(200));
}

#[test]
fn every_square_is_made_of_its_file_and_rank() {
    for index in 0..64u8 {
        let square = Square::of_index(index);
        assert_eq!(square, Square::new(square.file(), square.rank()));
    }
}

#[test]
fn one_step_is_one_file_and_eight_steps_are_one_rank() {
    assert_eq!(Square::B1, Square::A1 << 1);
    assert_eq!(Square::A2, Square::A1 << 8);
    assert_eq!(Square::A2, Square::H1 << 1);
    assert_eq!(Square::H8, Square::A1 << 63);
    assert_eq!(Square::G8, Square::H8 >> 1);
    assert_eq!(Square::H7, Square::H8 >> 8);
    assert_eq!(Square::A1, Square::H8 >> 63);
    assert_eq!(Square::E4, Square::E4 << 0);
    assert_eq!(Square::E4, Square::E4 >> 0);
}

#[test]
fn stepping_in_place_follows_the_numbers() {
    let mut square = Square::C3;
    square <<= 2;
    assert_eq!(Square::E3, square);
    square <<= 8;
    assert_eq!(Square::E4, square);
    let mut square = Square::H8;
    square >>= 1;
    assert_eq!(Square::G8, square);
    square >>= 8;
    assert_eq!(Square::G7, square);
}
