//! The MIDI messages that the keyboard logic reads and writes, and the calls
//! into `midi_control` that turn raw MIDI bytes into them and back.
use vstd::prelude::*;
use midi_control::message::SysExType as RawSysExType;
use midi_control::sysex::ManufacturerId as RawManufacturerId;
use midi_control::MidiMessage as RawMessage;

verus! {

/// Manufacturer id of a system exclusive message: one byte, or two after
/// the extension byte 0x00.
#[derive(Debug, Clone, Copy, PartialEq, Eq, Structural)]
pub enum ManufacturerId {
    Id(u8),
    ExtId(u8, u8),
}

/// Who a system exclusive message is for.
#[derive(Debug, Clone, Copy, PartialEq, Eq, Structural)]
pub enum SysExKind {
    /// A message in a manufacturer's own format.
    Manufacturer(ManufacturerId),
    /// A universal (real time or non real time) system exclusive message.
    Universal,
}

/// A system exclusive message: its kind, and the bytes after the
/// manufacturer id, the terminating 0xF7 included.
#[derive(Debug, Clone)]
pub struct SysExEvent {
    pub kind: SysExKind,
    pub data: Vec<u8>,
}

/// What the keyboard logic reads of an incoming MIDI message.
#[derive(Debug, Clone)]
pub enum MidiEvent {
    /// Note on, with its key.
    NoteOn(u8),
    /// Note off, with its key.
    NoteOff(u8),
    /// Control change, with its control number.
    ControlChange(u8),
    /// System exclusive message.
    SysEx(SysExEvent),
    /// Any other message, or bytes that form no message.
    Other,
}

/// The model of a system exclusive message: its kind and its data bytes.
pub struct SysExView {
    pub kind: SysExKind,
    pub data: Seq<u8>,
}

/// The model of what the keyboard logic reads of a MIDI message.
pub enum MidiEventView {
    NoteOn(u8),
    NoteOff(u8),
    ControlChange(u8),
    SysEx(SysExView),
    Other,
}

impl View for SysExEvent {
    type V = SysExView;

    open spec fn view(&self) -> SysExView {
        SysExView { kind: self.kind, data: self.data@ }
    }
}

impl View for MidiEvent {
    type V = MidiEventView;

    open spec fn view(&self) -> MidiEventView {
        match self {
            MidiEvent::NoteOn(key) => MidiEventView::NoteOn(*key),
            MidiEvent::NoteOff(key) => MidiEventView::NoteOff(*key),
            MidiEvent::ControlChange(control) => MidiEventView::ControlChange(*control),
            MidiEvent::SysEx(e) => MidiEventView::SysEx(e@),
            MidiEvent::Other => MidiEventView::Other,
        }
    }
}

/// What `midi_control` reads from the raw bytes `raw`
/// (`MidiMessage::from(&[u8])`), as far as the keyboard logic reads it:
/// fewer than three bytes form no message; below the system status 0xF0 the
/// high nibble of the status byte gives note off (0x80), note on (0x90) or
/// control change (0xB0), with the second byte; 0xF0 starts a system
/// exclusive message, universal after 0x7E or 0x7F (data from byte 5), with
/// an extended manufacturer id after 0x00 (data from byte 4), else with the
/// one-byte id in byte 1 (data from byte 2); anything else is another message.
pub open spec fn spec_read_midi(raw: Seq<u8>) -> MidiEventView {
    if raw.len() < 3 {
        MidiEventView::Other
    } else if 0x80 <= raw[0] < 0x90 {
        MidiEventView::NoteOff(raw[1])
    } else if 0x90 <= raw[0] < 0xa0 {
        MidiEventView::NoteOn(raw[1])
    } else if 0xb0 <= raw[0] < 0xc0 {
        MidiEventView::ControlChange(raw[1])
    } else if raw[0] == 0xf0 {
        if raw[1] == 0x7e || raw[1] == 0x7f {
            MidiEventView::SysEx(SysExView { kind: SysExKind::Universal, data: raw.skip(5) })
        } else if raw[1] == 0x00 {
            MidiEventView::SysEx(
                SysExView {
                    kind: SysExKind::Manufacturer(ManufacturerId::ExtId(raw[2], raw[3])),
                    data: raw.skip(4),
                },
            )
        } else {
            MidiEventView::SysEx(
                SysExView {
                    kind: SysExKind::Manufacturer(ManufacturerId::Id(raw[1])),
                    data: raw.skip(2),
                },
            )
        }
    } else {
        MidiEventView::Other
    }
}

/// `midi_control` reads `raw` without panicking: a system exclusive
/// message needs its extended manufacturer id, or the device and both
/// sub ids of a universal message, to be there.
pub open spec fn is_readable_midi(raw: Seq<u8>) -> bool {
    !(raw.len() >= 3 && raw[0] == 0xf0 && ((raw[1] == 0x00 && raw.len() < 4) || ((raw[1] == 0x7e
        || raw[1] == 0x7f) && raw.len() < 5)))
}

/// Tells whether `midi_control` can read `raw` (see `is_readable_midi`).
pub fn midi_is_readable(raw: &[u8]) -> (res: bool)
    ensures
        res == is_readable_midi(raw@),
{
    if raw.len() < 3 || raw[0] != 0xf0 {
        true
    } else if raw[1] == 0x00 {
        raw.len() >= 4
    } else if raw[1] == 0x7e || raw[1] == 0x7f {
        raw.len() >= 5
    } else {
        true
    }
}

/// Reads raw MIDI bytes with `midi_control::MidiMessage::from(&[u8])` and
/// keeps what the keyboard logic reads of the message. The claim is
/// `spec_read_midi`: how `From<&[u8]> for MidiMessage` (with
/// `sysex_message_from` and `ManufacturerId::from_raw`) splits the bytes.
#[verifier::external_body]
pub(crate) fn read_midi(raw: &[u8]) -> (res: MidiEvent)
    requires
        is_readable_midi(raw@),
    ensures
        res@ == spec_read_midi(raw@),
{
    match RawMessage::from(raw) {
        RawMessage::NoteOn(_, e) => MidiEvent::NoteOn(e.key),
        RawMessage::NoteOff(_, e) => MidiEvent::NoteOff(e.key),
        RawMessage::ControlChange(_, e) => MidiEvent::ControlChange(e.control),
        RawMessage::SysEx(e) => {
            let kind = match e.get_type() {
                RawSysExType::Manufacturer(RawManufacturerId::Id(m)) => SysExKind::Manufacturer(ManufacturerId::Id(*m)),
                RawSysExType::Manufacturer(RawManufacturerId::ExtId(a, b)) => SysExKind::Manufacturer(ManufacturerId::ExtId(*a, *b)),
                _ => SysExKind::Universal,
            };
            MidiEvent::SysEx(SysExEvent { kind, data: e.data })
        },
        _ => MidiEvent::Other,
    }
}

/// Builds `MidiMessage::SysEx(SysExEvent::new_manufacturer(ManufacturerId::Id(id), data))`
/// and turns it into raw bytes with `Vec<u8>::from(MidiMessage)`. The claim:
/// `midi_control` writes the status byte 0xF0, the one-byte manufacturer id,
/// then `data` as it is.
#[verifier::external_body]
pub(crate) fn manufacturer_sysex_bytes(id: u8, data: &[u8]) -> (res: Vec<u8>)
    ensures
        res@ == seq![0xf0u8, id] + data@,
{
    let event = midi_control::SysExEvent::new_manufacturer(RawManufacturerId::Id(id), data);
    Vec::<u8>::from(RawMessage::SysEx(event))
}

/// Reading back the bytes written for a manufacturer system exclusive
/// message with a one-byte id gives that id and the data as written.
pub proof fn lemma_read_written_sysex(id: u8, data: Seq<u8>)
    requires
        id != 0x00,
        id != 0x7e,
        id != 0x7f,
        data.len() >= 1,
    ensures
        is_readable_midi(seq![0xf0u8, id] + data),
        spec_read_midi(seq![0xf0u8, id] + data) == MidiEventView::SysEx(
            SysExView { kind: SysExKind::Manufacturer(ManufacturerId::Id(id)), data },
        ),
{
    let raw = seq![0xf0u8, id] + data;
    assert(raw.skip(2) =~= data);
}

} // verus!
