//! The note arithmetic of the on-screen piano keyboard: which notes its
//! keys stand for, and which of them respond to clicks.
use vstd::prelude::*;

verus! {

/// Number of white keys drawn: MIDI notes 0..=127 hold 75 of them.
pub const NUM_WHITE_KEYS: u8 = 75;

/// Number of black keys drawn: MIDI notes 0..=127 hold 53 of them.
pub const NUM_BLACK_KEYS: u8 = 53;

/// The range of notes that respond to clicks, centered on middle C.
/// `CLICKABLE_MIN_WHITE_IDX`/`MAX_WHITE_IDX` below are the white-key
/// indices of these two notes, so the status-bar highlight can never drift
/// out of sync with what's actually clickable.
pub const CLICKABLE_CENTER_NOTE: u8 = 60;  // C4

pub const CLICKABLE_RANGE_SEMITONES: u8 = 12;  // one octave each direction

pub const CLICKABLE_MIN_NOTE: u8 = CLICKABLE_CENTER_NOTE - CLICKABLE_RANGE_SEMITONES;

pub const CLICKABLE_MAX_NOTE: u8 = CLICKABLE_CENTER_NOTE + CLICKABLE_RANGE_SEMITONES;

/// White-key index of `CLICKABLE_MIN_NOTE` (see `lemma_clickable_white_indices`).
pub const CLICKABLE_MIN_WHITE_IDX: u8 = 28;

/// White-key index of `CLICKABLE_MAX_NOTE` (see `lemma_clickable_white_indices`).
pub const CLICKABLE_MAX_WHITE_IDX: u8 = 42;

/// Semitones above C of the white key at position `pos` (0..=6) of an octave.
pub open spec fn white_semitone(pos: int) -> int {
    if pos == 0 {
        0
    } else if pos == 1 {
        2
    } else if pos == 2 {
        4
    } else if pos == 3 {
        5
    } else if pos == 4 {
        7
    } else if pos == 5 {
        9
    } else {
        11
    }
}

/// Semitones above C of the black key at position `pos` (0..=4) of an octave.
pub open spec fn black_semitone(pos: int) -> int {
    if pos == 0 {
        1
    } else if pos == 1 {
        3
    } else if pos == 2 {
        6
    } else if pos == 3 {
        8
    } else {
        10
    }
}

/// A note is a white key: C, D, E, F, G, A or B.
pub open spec fn is_white_note(note: int) -> bool {
    let s = note % 12;
    s == 0 || s == 2 || s == 4 || s == 5 || s == 7 || s == 9 || s == 11
}

/// Position (0..=6) in its octave of a white note's key.
pub open spec fn white_position(semitone: int) -> int {
    if semitone == 0 {
        0
    } else if semitone == 2 {
        1
    } else if semitone == 4 {
        2
    } else if semitone == 5 {
        3
    } else if semitone == 7 {
        4
    } else if semitone == 9 {
        5
    } else {
        6
    }
}

/// The note of the white key with index `idx`, counting from C-1.
pub open spec fn spec_white_idx_to_note(idx: int) -> int {
    (idx / 7) * 12 + white_semitone(idx % 7)
}

/// The note of the black key with index `idx`, counting from C#-1.
pub open spec fn spec_black_idx_to_note(idx: int) -> int {
    (idx / 5) * 12 + black_semitone(idx % 5)
}

/// The white-key index of a white note.
pub open spec fn spec_note_to_white_idx(note: int) -> int {
    (note / 12) * 7 + white_position(note % 12)
}

/// Clicking the key of `note` changes the root note.
pub open spec fn spec_is_clickable(note: int) -> bool {
    CLICKABLE_MIN_NOTE <= note <= CLICKABLE_MAX_NOTE
}

pub fn is_clickable(note: u8) -> (res: bool)
    ensures
        res == spec_is_clickable(note as int),
        res == (48 <= note && note <= 72),
{
    CLICKABLE_MIN_NOTE <= note && note <= CLICKABLE_MAX_NOTE
}

pub fn white_idx_to_note(idx: u8) -> (note: u8)
    requires
        spec_white_idx_to_note(idx as int) <= u8::MAX,
    ensures
        note == spec_white_idx_to_note(idx as int),
{
    let pos = idx % 7;
    let semitone: u8 = if pos == 0 {
        0
    } else if pos == 1 {
        2
    } else if pos == 2 {
        4
    } else if pos == 3 {
        5
    } else if pos == 4 {
        7
    } else if pos == 5 {
        9
    } else {
        11
    };
    ((idx / 7) * 12) + semitone
}

pub fn black_idx_to_note(idx: u8) -> (note: u8)
    requires
        spec_black_idx_to_note(idx as int) <= u8::MAX,
    ensures
        note == spec_black_idx_to_note(idx as int),
{
    let pos = idx % 5;
    let semitone: u8 = if pos == 0 {
        1
    } else if pos == 1 {
        3
    } else if pos == 2 {
        6
    } else if pos == 3 {
        8
    } else {
        10
    };
    ((idx / 5) * 12) + semitone
}

/// Inverse of `white_idx_to_note`. Only valid for notes that are actually
/// white keys.
pub fn note_to_white_idx(note: u8) -> (idx: u8)
    requires
        is_white_note(note as int),
    ensures
        idx == spec_note_to_white_idx(note as int),
{
    let semitone = note % 12;
    let pos: u8 = if semitone == 0 {
        0
    } else if semitone == 2 {
        1
    } else if semitone == 4 {
        2
    } else if semitone == 5 {
        3
    } else if semitone == 7 {
        4
    } else if semitone == 9 {
        5
    } else {
        6
    };
    (note / 12) * 7 + pos
}

/// The key of every white-key index is a white note, and its white-key
/// index is the index it came from.
pub proof fn lemma_white_idx_round_trip(idx: int)
    requires
        0 <= idx,
    ensures
        is_white_note(spec_white_idx_to_note(idx)),
        spec_note_to_white_idx(spec_white_idx_to_note(idx)) == idx,
{
    let n = spec_white_idx_to_note(idx);
    assert(n / 12 == idx / 7 && n % 12 == white_semitone(idx % 7));
}

/// Every white note is the key of its own white-key index.
pub proof fn lemma_white_note_round_trip(note: int)
    requires
        0 <= note,
        is_white_note(note),
    ensures
        spec_white_idx_to_note(spec_note_to_white_idx(note)) == note,
{
    let i = spec_note_to_white_idx(note);
    assert(i / 7 == note / 12 && i % 7 == white_position(note % 12));
}

/// No black key stands for a white note.
pub proof fn lemma_black_keys_not_white(idx: int)
    requires
        0 <= idx,
    ensures
        !is_white_note(spec_black_idx_to_note(idx)),
        spec_black_idx_to_note(idx) >= 0,
{
    let n = spec_black_idx_to_note(idx);
    assert(n % 12 == black_semitone(idx % 5));
}

/// Every drawn key, white or black, stands for a MIDI note (0..=127).
pub proof fn lemma_drawn_keys_are_midi_notes(white: int, black: int)
    requires
        0 <= white < NUM_WHITE_KEYS,
        0 <= black < NUM_BLACK_KEYS,
    ensures
        0 <= spec_white_idx_to_note(white) <= 127,
        0 <= spec_black_idx_to_note(black) <= 127,
{
}

/// The ends of the clickable range are white keys, and the highlight's
/// white-key indices are theirs.
pub proof fn lemma_clickable_white_indices()
    ensures
        is_white_note(CLICKABLE_MIN_NOTE as int),
        is_white_note(CLICKABLE_MAX_NOTE as int),
        CLICKABLE_MIN_WHITE_IDX == spec_note_to_white_idx(CLICKABLE_MIN_NOTE as int),
        CLICKABLE_MAX_WHITE_IDX == spec_note_to_white_idx(CLICKABLE_MAX_NOTE as int),
{
}

/// Position (0..=4) in its octave of a black note's key.
pub open spec fn black_position(semitone: int) -> int {
    if semitone == 1 {
        0
    } else if semitone == 3 {
        1
    } else if semitone == 6 {
        2
    } else if semitone == 8 {
        3
    } else {
        4
    }
}

/// The black-key index of a black note.
pub open spec fn spec_note_to_black_idx(note: int) -> int {
    (note / 12) * 5 + black_position(note % 12)
}

/// Every MIDI note has a drawn key: a white one among the `NUM_WHITE_KEYS`
/// white keys, or a black one among the `NUM_BLACK_KEYS` black keys.
pub proof fn lemma_every_note_has_a_key(note: int)
    requires
        0 <= note <= 127,
    ensures
        is_white_note(note) ==> 0 <= spec_note_to_white_idx(note) < NUM_WHITE_KEYS
            && spec_white_idx_to_note(spec_note_to_white_idx(note)) == note,
        !is_white_note(note) ==> 0 <= spec_note_to_black_idx(note) < NUM_BLACK_KEYS
            && spec_black_idx_to_note(spec_note_to_black_idx(note)) == note,
{
    if is_white_note(note) {
        lemma_white_note_round_trip(note);
    } else {
        let i = spec_note_to_black_idx(note);
        assert(i / 5 == note / 12 && i % 5 == black_position(note % 12));
    }
}

/// Exactly the notes of the octave on either side of middle C (48..=72)
/// are clickable, white and black keys alike.
pub proof fn lemma_clickable_range(note: int)
    ensures
        spec_is_clickable(note) == (48 <= note <= 72),
        48 <= note <= 72 && !is_white_note(note) ==> spec_is_clickable(note),
{
}

} // verus!
