use nk2view::widgets::keyboard::{
    black_idx_to_note, is_clickable, note_to_white_idx, white_idx_to_note,
    CLICKABLE_MAX_NOTE, CLICKABLE_MAX_WHITE_IDX, CLICKABLE_MIN_NOTE, CLICKABLE_MIN_WHITE_IDX,
    NUM_BLACK_KEYS, NUM_WHITE_KEYS,
};

#[test]
fn white_keys() {
    assert_eq!(white_idx_to_note(0), 0);
    assert_eq!(white_idx_to_note(1), 2);
    assert_eq!(white_idx_to_note(3), 5);
    assert_eq!(white_idx_to_note(6), 11);
    assert_eq!(white_idx_to_note(7), 12);
    assert_eq!(white_idx_to_note(35), 60);
    assert_eq!(white_idx_to_note(NUM_WHITE_KEYS - 1), 127);
}

#[test]
fn black_keys() {
    assert_eq!(black_idx_to_note(0), 1);
    assert_eq!(black_idx_to_note(2), 6);
    assert_eq!(black_idx_to_note(4), 10);
    assert_eq!(black_idx_to_note(5), 13);
    assert_eq!(black_idx_to_note(NUM_BLACK_KEYS - 1), 126);
}

#[test]
fn white_index_round_trip() {
    for idx in 0..NUM_WHITE_KEYS {
        assert_eq!(note_to_white_idx(white_idx_to_note(idx)), idx);
    }
    assert_eq!(note_to_white_idx(60), 35);
    assert_eq!(note_to_white_idx(127), 74);
}

#[test]
fn every_note_has_one_key() {
    let mut seen = [0u8; 128];
    for idx in 0..NUM_WHITE_KEYS {
        seen[white_idx_to_note(idx) as usize] += 1;
    }
    for idx in 0..NUM_BLACK_KEYS {
        seen[black_idx_to_note(idx) as usize] += 1;
    }
    assert!(seen.iter().all(|n| *n == 1));
}

#[test]
fn clickable_range() {
    assert!(!is_clickable(47));
    assert!(is_clickable(48));
    assert!(is_clickable(60));
    assert!(is_clickable(72));
    assert!(!is_clickable(73));
    assert_eq!(CLICKABLE_MIN_NOTE, 48);
    assert_eq!(CLICKABLE_MAX_NOTE, 72);
    assert_eq!(CLICKABLE_MIN_WHITE_IDX, note_to_white_idx(CLICKABLE_MIN_NOTE));
    assert_eq!(CLICKABLE_MAX_WHITE_IDX, note_to_white_idx(CLICKABLE_MAX_NOTE));
}
