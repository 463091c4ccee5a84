use chessboard::debruijn::{top_of_low_mask, DEBRUIJN64, INDEX64};

#[test]
fn every_run_of_low_bits_is_mapped_to_its_top_bit() {
    for top in 0..64u8 {
        let run = u64::MAX >> (63 - top);
        assert_eq!(top, top_of_low_mask(run));
    }
}

#[test]
fn the_table_holds_every_index_once() {
    let mut seen = [false; 64];
    for &index in INDEX64.iter() {
        assert!(!seen[index as usize]);
        seen[index as usize] = true;
    }
}

#[test]
fn the_multiplier_and_the_ends_of_the_table() {
    assert_eq!(0x03f7_9d71_b4cb_0a89, DEBRUIJN64);
    assert_eq!(0, INDEX64[0]);
    assert_eq!(47, INDEX64[1]);
    assert_eq!(63, INDEX64[63]);
}
