//! The keyboard's system exclusive messages: the requests sent to it and
//! the replies read from it.
use vstd::prelude::*;
use crate::nk2::midi::{manufacturer_sysex_bytes, ManufacturerId, SysExEvent, SysExKind, SysExView};
use crate::nk2::scene::{InvalidSceneParam, Scene};

verus! {

/// Korg's manufacturer id.
pub const KORG_ID: u8 = 0x42;

/// End of exclusive: the last byte of every system exclusive message.
pub const EOX: u8 = 0xf7;

/// First data byte of every message: the keyboard's channel, in the low
/// nibble of 0x40.
pub open spec fn channel_byte(ch: u8) -> u8 {
    (0x40 + (ch & 0x0f)) as u8
}

fn exec_channel_byte(ch: u8) -> (res: u8)
    ensures
        res == channel_byte(ch),
{
    assert((ch & 0x0f) <= 0x0f) by (bit_vector);
    0x40 + (ch & 0x0f)
}

/// Data of a request that carries no scene: `code` says which.
pub open spec fn scene_command_data(ch: u8, code: u8) -> Seq<u8> {
    seq![channel_byte(ch), 0x00, 0x01, 0x11, 0x01, 0x1f, code, 0x00, EOX]
}

/// The raw MIDI bytes of a Korg system exclusive message with `data`.
pub open spec fn korg_sysex(data: Seq<u8>) -> Seq<u8> {
    seq![0xf0u8, KORG_ID] + data
}

/// Command code of a scene dump request.
pub const DUMP_REQUEST: u8 = 0x10;

/// Command code of a scene write request.
pub const WRITE_REQUEST: u8 = 0x11;

/// Command code of a scene change request.
pub const CHANGE_REQUEST: u8 = 0x14;

fn scene_command(ch: u8, code: u8) -> (res: Vec<u8>)
    ensures
        res@ == korg_sysex(scene_command_data(ch, code)),
{
    let data: [u8; 9] = [exec_channel_byte(ch), 0x00, 0x01, 0x11, 0x01, 0x1f, code, 0x00, EOX];
    let res = manufacturer_sysex_bytes(KORG_ID, &data);
    assert(data@ =~= scene_command_data(ch, code));
    res
}

/// `ch` must match the keyboard's channel
pub fn dump_scene_request(ch: u8) -> (res: Vec<u8>)
    ensures
        res@ == korg_sysex(scene_command_data(ch, DUMP_REQUEST)),
{
    scene_command(ch, DUMP_REQUEST)
}

/// `ch` must match the keyboard's channel
pub fn save_scene_request(ch: u8) -> (res: Vec<u8>)
    ensures
        res@ == korg_sysex(scene_command_data(ch, WRITE_REQUEST)),
{
    scene_command(ch, WRITE_REQUEST)
}

/// `ch` must match the keyboard's channel
pub fn restore_scene_request(ch: u8) -> (res: Vec<u8>)
    ensures
        res@ == korg_sysex(scene_command_data(ch, CHANGE_REQUEST)),
{
    scene_command(ch, CHANGE_REQUEST)
}

/// Data of a request that loads `scene` into the keyboard's current scene.
pub open spec fn load_scene_data(ch: u8, scene: Scene) -> Seq<u8> {
    seq![channel_byte(ch), 0x00, 0x01, 0x11, 0x01, 0x4b, 0x40] + scene.spec_midi_bytes() + seq![
        EOX,
    ]
}

/// `ch` must match the keyboard's channel
pub fn load_scene_request(ch: u8, scene: &Scene) -> (res: Vec<u8>)
    ensures
        res@ == korg_sysex(load_scene_data(ch, *scene)),
{
    let mut data: Vec<u8> = Vec::new();
    data.push(exec_channel_byte(ch));
    data.push(0x00);
    data.push(0x01);
    data.push(0x11);
    data.push(0x01);
    data.push(0x4b);
    data.push(0x40);  // change request
    let scene_bytes = scene.to_midi_bytes();
    data.extend_from_slice(&scene_bytes);
    data.push(EOX);
    assert(data@ =~= load_scene_data(ch, *scene));
    manufacturer_sysex_bytes(KORG_ID, data.as_slice())
}

/// `data[start..start + expected.len()]` holds exactly `expected`.
fn bytes_match(data: &Vec<u8>, start: usize, expected: &[u8]) -> (res: bool)
    requires
        start + expected@.len() <= data@.len(),
    ensures
        res == (data@.subrange(start as int, start + expected@.len()) == expected@),
{
    let n = data.len();
    let mut i: usize = 0;
    while i < expected.len()
        invariant
            i <= expected@.len(),
            start + expected@.len() <= data@.len(),
            n == data@.len(),
            forall|j: int| 0 <= j < i ==> data@[start + j] == expected@[j],
        decreases expected@.len() - i,
    {
        if data[start + i] != expected[i] {
            assert(data@.subrange(start as int, start + expected@.len())[i as int] != expected@[i as int]);
            return false;
        }
        i = i + 1;
    }
    assert(data@.subrange(start as int, start + expected@.len()) =~= expected@);
    true
}

/// A scene dump from the keyboard: its channel and the scene.
#[derive(Debug, Clone, PartialEq, Eq)]
pub struct SceneDump(pub u8, pub Scene);

#[derive(Debug, Clone)]
pub enum ParseSceneDumpError {
    /// not a scene dump event
    NotDump,
    /// scene dump event is malformed
    Malformed,
    /// scene dump event contains invalid scene
    InvalidScene(InvalidSceneParam),
}

impl core::convert::From<InvalidSceneParam> for ParseSceneDumpError {
    fn from(e: InvalidSceneParam) -> (res: ParseSceneDumpError) {
        ParseSceneDumpError::InvalidScene(e)
    }
}

impl vstd::std_specs::convert::FromSpecImpl<InvalidSceneParam> for ParseSceneDumpError {
    open spec fn obeys_from_spec() -> bool {
        true
    }

    open spec fn from_spec(e: InvalidSceneParam) -> ParseSceneDumpError {
        ParseSceneDumpError::InvalidScene(e)
    }
}

/// The bytes that follow the channel byte in a scene dump.
pub open spec fn dump_preamble() -> Seq<u8> {
    seq![0x00, 0x01, 0x11, 0x01, 0x7f, 0x4b, 0x40]
}

/// Length of the data of a scene dump.
pub const SCENE_DUMP_LEN: usize = 83;

impl SceneDump {
    /// What reading a system exclusive message as a scene dump gives.
    pub open spec fn spec_parse_sysex(evt: SysExView) -> Result<SceneDump, ParseSceneDumpError> {
        let d = evt.data;
        if evt.kind != SysExKind::Manufacturer(ManufacturerId::Id(KORG_ID)) {
            Err(ParseSceneDumpError::NotDump)
        } else if d.len() != 83 {
            Err(ParseSceneDumpError::Malformed)
        } else if d[0] & 0xf0 != 0x40 {
            Err(ParseSceneDumpError::Malformed)
        } else if d.subrange(1, 8) != dump_preamble() {
            Err(ParseSceneDumpError::Malformed)
        } else if d[82] != EOX {
            Err(ParseSceneDumpError::Malformed)
        } else {
            match Scene::spec_from_midi_bytes(d.subrange(8, 82)) {
                Ok(scene) => Ok(SceneDump(d[0] & 0x0f, scene)),
                Err(e) => Err(ParseSceneDumpError::InvalidScene(e)),
            }
        }
    }

    pub fn parse_sysex(evt: &SysExEvent) -> (res: Result<SceneDump, ParseSceneDumpError>)
        ensures
            res == Self::spec_parse_sysex(evt@),
    {
        match evt.kind {
            SysExKind::Manufacturer(ManufacturerId::Id(id)) => {
                if id != KORG_ID {
                    return Err(ParseSceneDumpError::NotDump);
                }
            },
            _ => {
                return Err(ParseSceneDumpError::NotDump);
            },
        }

        let data = &evt.data;
        if data.len() != SCENE_DUMP_LEN {
            return Err(ParseSceneDumpError::Malformed);
        }

        let channel = {
            if data[0] & 0xf0 != 0x40 {
                return Err(ParseSceneDumpError::Malformed);
            }
            data[0] & 0x0f
        };

        // preamble
        let preamble: [u8; 7] = [0x00, 0x01, 0x11, 0x01, 0x7f, 0x4b, 0x40];
        assert(preamble@ =~= dump_preamble());
        if !bytes_match(data, 1, &preamble) {
            return Err(ParseSceneDumpError::Malformed);
        }

        // ending
        if data[82] != EOX {
            return Err(ParseSceneDumpError::Malformed);
        }

        let mut scene_data = [0u8; 74];
        let mut i: usize = 0;
        while i < 74
            invariant
                i <= 74,
                data@.len() == 83,
                forall|j: int| 0 <= j < i ==> scene_data@[j] == data@[8 + j],
            decreases 74 - i,
        {
            scene_data[i] = data[8 + i];
            i = i + 1;
        }
        assert(scene_data@ =~= data@.subrange(8, 82));
        match Scene::from_midi_bytes(&scene_data) {
            Ok(scene) => Ok(SceneDump(channel, scene)),
            Err(e) => Err(ParseSceneDumpError::from(e)),
        }
    }
}

/// The keyboard's answer to a load or write request.
#[derive(Debug, Clone, Copy, PartialEq, Eq, Structural)]
pub enum Ack {
    LoadCompleted(u8),
    LoadError(u8),
    WriteCompleted(u8),
    WriteError(u8),
}

#[derive(Debug, Clone, Copy)]
pub enum ParseAckError {
    /// not an ack event
    NotAck,
    /// ack event is malformed
    Malformed,
    /// unknown ack event type
    Unknown(u8),
}

/// The bytes that follow the channel byte in an acknowledgement.
pub open spec fn ack_preamble() -> Seq<u8> {
    seq![0x00, 0x01, 0x11, 0x01, 0x5f]
}

/// The bytes that end an acknowledgement.
pub open spec fn ack_ending() -> Seq<u8> {
    seq![0x00, EOX]
}

impl Ack {
    /// The acknowledgement that command byte `code` stands for, on channel `ch`.
    pub open spec fn spec_from_code(code: u8, ch: u8) -> Option<Ack> {
        if code == 0x23 {
            Some(Ack::LoadCompleted(ch))
        } else if code == 0x24 {
            Some(Ack::LoadError(ch))
        } else if code == 0x21 {
            Some(Ack::WriteCompleted(ch))
        } else if code == 0x22 {
            Some(Ack::WriteError(ch))
        } else {
            None
        }
    }

    /// What reading a system exclusive message as an acknowledgement gives.
    pub open spec fn spec_parse_sysex(evt: SysExView) -> Result<Ack, ParseAckError> {
        let d = evt.data;
        if evt.kind != SysExKind::Manufacturer(ManufacturerId::Id(KORG_ID)) {
            Err(ParseAckError::NotAck)
        } else if d.len() != 9 {
            Err(ParseAckError::NotAck)
        } else if d[0] & 0xf0 != 0x40 {
            Err(ParseAckError::Malformed)
        } else if d.subrange(1, 6) != ack_preamble() {
            Err(ParseAckError::Malformed)
        } else if d.subrange(7, 9) != ack_ending() {
            Err(ParseAckError::Malformed)
        } else {
            match Ack::spec_from_code(d[6], d[0] & 0x0f) {
                Some(ack) => Ok(ack),
                None => Err(ParseAckError::Unknown(d[6])),
            }
        }
    }

    pub fn parse_sysex(evt: &SysExEvent) -> (res: Result<Ack, ParseAckError>)
        ensures
            res == Self::spec_parse_sysex(evt@),
    {
        match evt.kind {
            SysExKind::Manufacturer(ManufacturerId::Id(id)) => {
                if id != KORG_ID {
                    return Err(ParseAckError::NotAck);
                }
            },
            _ => {
                return Err(ParseAckError::NotAck);
            },
        }

        let data = &evt.data;
        if data.len() != 9 {
            return Err(ParseAckError::NotAck);
        }

        let channel = {
            if data[0] & 0xf0 != 0x40 {
                return Err(ParseAckError::Malformed);
            }
            data[0] & 0x0f
        };

        // preamble
        let preamble: [u8; 5] = [0x00, 0x01, 0x11, 0x01, 0x5f];
        assert(preamble@ =~= ack_preamble());
        if !bytes_match(data, 1, &preamble) {
            return Err(ParseAckError::Malformed);
        }

        // ending
        let ending: [u8; 2] = [0x00, EOX];
        assert(ending@ =~= ack_ending());
        if !bytes_match(data, 7, &ending) {
            return Err(ParseAckError::Malformed);
        }

        let code = data[6];
        if code == 0x23 {
            Ok(Ack::LoadCompleted(channel))
        } else if code == 0x24 {
            Ok(Ack::LoadError(channel))
        } else if code == 0x21 {
            Ok(Ack::WriteCompleted(channel))
        } else if code == 0x22 {
            Ok(Ack::WriteError(channel))
        } else {
            Err(ParseAckError::Unknown(code))
        }
    }
}


/// The data of a scene dump that the keyboard sends for `scene` on channel `ch`.
pub open spec fn scene_dump_data(ch: u8, scene: Scene) -> Seq<u8> {
    seq![channel_byte(ch)] + dump_preamble() + scene.spec_midi_bytes() + seq![EOX]
}

/// The channel byte carries the channel in its low nibble and 0x40 above it.
pub proof fn lemma_channel_byte(ch: u8)
    ensures
        channel_byte(ch) & 0xf0 == 0x40,
        channel_byte(ch) & 0x0f == ch & 0x0f,
{
    assert((0x40 + (ch & 0x0f)) as u8 & 0xf0 == 0x40 && (0x40 + (ch & 0x0f)) as u8 & 0x0f == ch
        & 0x0f) by (bit_vector);
}

/// A load request carries the scene data of its scene, which decodes back
/// to that scene (numeric fields cut to the bits that scene data gives them).
pub proof fn lemma_load_request_carries_scene(ch: u8, scene: Scene)
    ensures
        load_scene_data(ch, scene).subrange(7, 81) == scene.spec_midi_bytes(),
        Scene::spec_from_midi_bytes(load_scene_data(ch, scene).subrange(7, 81)) == Ok::<
            Scene,
            InvalidSceneParam,
        >(scene.masked()),
{
    assert(load_scene_data(ch, scene).subrange(7, 81) =~= scene.spec_midi_bytes());
    crate::nk2::scene::lemma_scene_bytes_decode(scene);
}

/// A scene dump of a valid scene on channel `ch` (0..=15) reads back as
/// that channel and that scene.
pub proof fn lemma_scene_dump_round_trip(ch: u8, scene: Scene, evt: SysExView)
    requires
        ch < 16,
        scene.is_valid(),
        evt.kind == SysExKind::Manufacturer(ManufacturerId::Id(KORG_ID)),
        evt.data == scene_dump_data(ch, scene),
    ensures
        SceneDump::spec_parse_sysex(evt) == Ok::<SceneDump, ParseSceneDumpError>(
            SceneDump(ch, scene),
        ),
{
    let d = scene_dump_data(ch, scene);
    lemma_channel_byte(ch);
    assert(ch < 16 ==> ch & 0x0f == ch) by (bit_vector);
    assert(d.subrange(1, 8) =~= dump_preamble());
    assert(d.subrange(8, 82) =~= scene.spec_midi_bytes());
    crate::nk2::scene::lemma_scene_bytes_round_trip(scene);
}

/// The command byte of an acknowledgement.
pub open spec fn ack_code(ack: Ack) -> u8 {
    match ack {
        Ack::LoadCompleted(_) => 0x23,
        Ack::LoadError(_) => 0x24,
        Ack::WriteCompleted(_) => 0x21,
        Ack::WriteError(_) => 0x22,
    }
}

/// The channel that an acknowledgement is for.
pub open spec fn ack_channel(ack: Ack) -> u8 {
    match ack {
        Ack::LoadCompleted(ch) => ch,
        Ack::LoadError(ch) => ch,
        Ack::WriteCompleted(ch) => ch,
        Ack::WriteError(ch) => ch,
    }
}

/// The data of the acknowledgement that the keyboard sends for `ack`.
pub open spec fn ack_data(ack: Ack) -> Seq<u8> {
    seq![channel_byte(ack_channel(ack))] + ack_preamble() + seq![ack_code(ack)] + ack_ending()
}

/// An acknowledgement on a channel 0..=15 reads back as itself.
pub proof fn lemma_ack_round_trip(ack: Ack, evt: SysExView)
    requires
        ack_channel(ack) < 16,
        evt.kind == SysExKind::Manufacturer(ManufacturerId::Id(KORG_ID)),
        evt.data == ack_data(ack),
    ensures
        Ack::spec_parse_sysex(evt) == Ok::<Ack, ParseAckError>(ack),
{
    let d = ack_data(ack);
    let ch = ack_channel(ack);
    lemma_channel_byte(ch);
    assert(ch < 16 ==> ch & 0x0f == ch) by (bit_vector);
    assert(d.subrange(1, 6) =~= ack_preamble());
    assert(d.subrange(7, 9) =~= ack_ending());
}

} // verus!
