use libriichi::hand::{tile_counts, HandError};

#[test]
fn tile_counts_of_tenpai_hand() {
    let (counts, melds) = tile_counts(&[0, 0, 9, 10, 11, 12, 13, 14, 15, 16, 17, 18, 19]).unwrap();
    assert_eq!(counts[0], 2);
    for t in 9..=19 {
        assert_eq!(counts[t], 1);
    }
    assert_eq!(counts.iter().map(|&c| c as u32).sum::<u32>(), 13);
    assert_eq!(melds, 4);
}

#[test]
fn tile_counts_of_empty_hand() {
    let (counts, melds) = tile_counts(&[]).unwrap();
    assert_eq!(counts, [0u8; 34]);
    assert_eq!(melds, 0);
}

#[test]
fn tile_counts_rejects_out_of_range_id() {
    assert_eq!(tile_counts(&[0, 34, 1]), Err(HandError::TileIdOutOfRange));
    assert_eq!(tile_counts(&[33, 33, 33, u32::MAX]), Err(HandError::TileIdOutOfRange));
}

#[test]
fn tile_counts_of_last_kind() {
    let (counts, melds) = tile_counts(&[33, 33, 33, 33, 27]).unwrap();
    assert_eq!(counts[33], 4);
    assert_eq!(counts[27], 1);
    assert_eq!(melds, 1);
}

#[test]
fn tile_counts_ignore_order() {
    let a = [0u32, 0, 9, 10, 11, 27, 27, 33];
    let b = [27u32, 10, 0, 33, 9, 27, 11, 0];
    assert_eq!(tile_counts(&a), tile_counts(&b));
    assert_eq!(tile_counts(&[1, 40, 2]), tile_counts(&[40, 2, 1]));
}

#[test]
fn hand_error_message() {
    let err = tile_counts(&[34]).unwrap_err();
    assert_eq!(err.message(), "tile id must be 0..34");
}
