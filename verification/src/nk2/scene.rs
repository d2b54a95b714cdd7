use vstd::prelude::*;

verus! {

/// How fast a controller value moves towards its target.
#[derive(Debug, Clone, Copy, PartialEq, Eq, Structural)]
pub enum Speed {
    Immediate,
    Fast,
    Normal,
    Slow,
}

impl Speed {
    /// The byte that stands for this value in scene data.
    pub open spec fn spec_byte(self) -> u8 {
        match self {
            Speed::Immediate => 0,
            Speed::Fast => 1,
            Speed::Normal => 2,
            Speed::Slow => 3,
        }
    }

    /// The value that a scene data byte stands for, if any.
    pub open spec fn spec_from_byte(b: u8) -> Option<Speed> {
        if b == 0 {
            Some(Speed::Immediate)
        } else if b == 1 {
            Some(Speed::Fast)
        } else if b == 2 {
            Some(Speed::Normal)
        } else if b == 3 {
            Some(Speed::Slow)
        } else {
            None
        }
    }
}

impl core::convert::TryFrom<u8> for Speed {
    type Error = u8;

    fn try_from(b: u8) -> (res: Result<Speed, u8>) {
        if b == 0 {
            Ok(Speed::Immediate)
        } else if b == 1 {
            Ok(Speed::Fast)
        } else if b == 2 {
            Ok(Speed::Normal)
        } else if b == 3 {
            Ok(Speed::Slow)
        } else {
            Err(b)
        }
    }
}

impl vstd::std_specs::convert::TryFromSpecImpl<u8> for Speed {
    open spec fn obeys_try_from_spec() -> bool {
        true
    }

    open spec fn try_from_spec(b: u8) -> Result<Speed, u8> {
        match Speed::spec_from_byte(b) {
            Some(v) => Ok(v),
            None => Err(b),
        }
    }
}

impl core::convert::From<Speed> for u8 {
    fn from(v: Speed) -> (res: u8) {
        match v {
            Speed::Immediate => 0,
            Speed::Fast => 1,
            Speed::Normal => 2,
            Speed::Slow => 3,
        }
    }
}

impl vstd::std_specs::convert::FromSpecImpl<Speed> for u8 {
    open spec fn obeys_from_spec() -> bool {
        true
    }

    open spec fn from_spec(v: Speed) -> u8 {
        v.spec_byte()
    }
}

/// How key velocity is derived from how hard a key is struck.
#[derive(Debug, Clone, Copy, PartialEq, Eq, Structural)]
pub enum VelocityCurve {
    Light,
    Normal,
    Heavy,
    Const,
}

impl VelocityCurve {
    /// The byte that stands for this value in scene data.
    pub open spec fn spec_byte(self) -> u8 {
        match self {
            VelocityCurve::Light => 0,
            VelocityCurve::Normal => 1,
            VelocityCurve::Heavy => 2,
            VelocityCurve::Const => 3,
        }
    }

    /// The value that a scene data byte stands for, if any.
    pub open spec fn spec_from_byte(b: u8) -> Option<VelocityCurve> {
        if b == 0 {
            Some(VelocityCurve::Light)
        } else if b == 1 {
            Some(VelocityCurve::Normal)
        } else if b == 2 {
            Some(VelocityCurve::Heavy)
        } else if b == 3 {
            Some(VelocityCurve::Const)
        } else {
            None
        }
    }
}

impl core::convert::TryFrom<u8> for VelocityCurve {
    type Error = u8;

    fn try_from(b: u8) -> (res: Result<VelocityCurve, u8>) {
        if b == 0 {
            Ok(VelocityCurve::Light)
        } else if b == 1 {
            Ok(VelocityCurve::Normal)
        } else if b == 2 {
            Ok(VelocityCurve::Heavy)
        } else if b == 3 {
            Ok(VelocityCurve::Const)
        } else {
            Err(b)
        }
    }
}

impl vstd::std_specs::convert::TryFromSpecImpl<u8> for VelocityCurve {
    open spec fn obeys_try_from_spec() -> bool {
        true
    }

    open spec fn try_from_spec(b: u8) -> Result<VelocityCurve, u8> {
        match VelocityCurve::spec_from_byte(b) {
            Some(v) => Ok(v),
            None => Err(b),
        }
    }
}

impl core::convert::From<VelocityCurve> for u8 {
    fn from(v: VelocityCurve) -> (res: u8) {
        match v {
            VelocityCurve::Light => 0,
            VelocityCurve::Normal => 1,
            VelocityCurve::Heavy => 2,
            VelocityCurve::Const => 3,
        }
    }
}

impl vstd::std_specs::convert::FromSpecImpl<VelocityCurve> for u8 {
    open spec fn obeys_from_spec() -> bool {
        true
    }

    open spec fn from_spec(v: VelocityCurve) -> u8 {
        v.spec_byte()
    }
}

/// Whether a button acts while held or flips on each press.
#[derive(Debug, Clone, Copy, PartialEq, Eq, Structural)]
pub enum ButtonBehaviour {
    Momentary,
    Toggle,
}

impl ButtonBehaviour {
    /// The byte that stands for this value in scene data.
    pub open spec fn spec_byte(self) -> u8 {
        match self {
            ButtonBehaviour::Momentary => 0,
            ButtonBehaviour::Toggle => 1,
        }
    }

    /// The value that a scene data byte stands for, if any.
    pub open spec fn spec_from_byte(b: u8) -> Option<ButtonBehaviour> {
        if b == 0 {
            Some(ButtonBehaviour::Momentary)
        } else if b == 1 {
            Some(ButtonBehaviour::Toggle)
        } else {
            None
        }
    }
}

impl core::convert::TryFrom<u8> for ButtonBehaviour {
    type Error = u8;

    fn try_from(b: u8) -> (res: Result<ButtonBehaviour, u8>) {
        if b == 0 {
            Ok(ButtonBehaviour::Momentary)
        } else if b == 1 {
            Ok(ButtonBehaviour::Toggle)
        } else {
            Err(b)
        }
    }
}

impl vstd::std_specs::convert::TryFromSpecImpl<u8> for ButtonBehaviour {
    open spec fn obeys_try_from_spec() -> bool {
        true
    }

    open spec fn try_from_spec(b: u8) -> Result<ButtonBehaviour, u8> {
        match ButtonBehaviour::spec_from_byte(b) {
            Some(v) => Ok(v),
            None => Err(b),
        }
    }
}

impl core::convert::From<ButtonBehaviour> for u8 {
    fn from(v: ButtonBehaviour) -> (res: u8) {
        match v {
            ButtonBehaviour::Momentary => 0,
            ButtonBehaviour::Toggle => 1,
        }
    }
}

impl vstd::std_specs::convert::FromSpecImpl<ButtonBehaviour> for u8 {
    open spec fn obeys_from_spec() -> bool {
        true
    }

    open spec fn from_spec(v: ButtonBehaviour) -> u8 {
        v.spec_byte()
    }
}

/// The settings of one keyboard scene, as the keyboard stores them.
#[derive(Debug, Clone, PartialEq, Eq, Structural)]
pub struct Scene {
    /// 0..=15
    pub midi_channel: u8,
    pub pitch_bend_speed: Speed,
    /// 64 +/- 12 => -12..12
    pub transpose: u8,
    pub velocity_curve: VelocityCurve,
    /// 1..=127
    pub velocity_constant_value: u8,
    pub mod_enable: bool,
    /// 0..=127
    pub mod_cc: u8,
    pub mod_behaviour: ButtonBehaviour,
    /// 0..=127
    pub mod_off_value: u8,
    /// 0..=127
    pub mod_on_value: u8,
    pub mod_speed: Speed,
    pub sustain_enable: bool,
    /// 0..=127
    pub sustain_cc: u8,
    pub sustain_behaviour: ButtonBehaviour,
    /// 0..=127
    pub sustain_off_value: u8,
    /// 0..=127
    pub sustain_on_value: u8,
    pub sustain_speed: Speed,
}

impl Default for Scene {
    fn default() -> (s: Scene)
        ensures
            s == Scene::spec_default(),
            s.is_valid(),
    {
        Scene {
            midi_channel: 0,
            pitch_bend_speed: Speed::Normal,
            transpose: 64,
            velocity_curve: VelocityCurve::Normal,
            velocity_constant_value: 100,
            mod_enable: true,
            mod_cc: 1,  // mod wheel
            mod_behaviour: ButtonBehaviour::Momentary,
            mod_off_value: 0,
            mod_on_value: 127,
            mod_speed: Speed::Normal,
            sustain_enable: true,
            sustain_cc: 64,  // sustain
            sustain_behaviour: ButtonBehaviour::Momentary,
            sustain_off_value: 0,
            sustain_on_value: 127,
            sustain_speed: Speed::Normal,
        }
    }
}

/// A scene parameter byte that names no value of its type.
#[derive(Debug, Clone, Copy, PartialEq, Eq)]
pub struct InvalidSceneParam {
    pub name: &'static str,
    pub value: u8,
}

impl InvalidSceneParam {
    pub fn new(name: &'static str, value: u8) -> (res: Self)
        ensures
            res == (InvalidSceneParam { name, value }),
    {
        Self { name, value }
    }
}

/// `b` holds at most 7 significant bits, as MIDI data bytes do.
pub open spec fn is_seven_bit(b: u8) -> bool {
    b < 128
}

impl Scene {
    pub open spec fn spec_default() -> Scene {
        Scene {
            midi_channel: 0,
            pitch_bend_speed: Speed::Normal,
            transpose: 64,
            velocity_curve: VelocityCurve::Normal,
            velocity_constant_value: 100,
            mod_enable: true,
            mod_cc: 1,
            mod_behaviour: ButtonBehaviour::Momentary,
            mod_off_value: 0,
            mod_on_value: 127,
            mod_speed: Speed::Normal,
            sustain_enable: true,
            sustain_cc: 64,
            sustain_behaviour: ButtonBehaviour::Momentary,
            sustain_off_value: 0,
            sustain_on_value: 127,
            sustain_speed: Speed::Normal,
        }
    }

    /// Every numeric field fits the bits that scene data gives it.
    pub open spec fn is_valid(self) -> bool {
        &&& self.midi_channel < 16
        &&& is_seven_bit(self.transpose)
        &&& is_seven_bit(self.velocity_constant_value)
        &&& is_seven_bit(self.mod_cc)
        &&& is_seven_bit(self.mod_off_value)
        &&& is_seven_bit(self.mod_on_value)
        &&& is_seven_bit(self.sustain_cc)
        &&& is_seven_bit(self.sustain_off_value)
        &&& is_seven_bit(self.sustain_on_value)
    }

    /// The scene with each numeric field cut down to the bits that scene data gives it.
    pub open spec fn masked(self) -> Scene {
        Scene {
            midi_channel: self.midi_channel & 0x0f,
            transpose: self.transpose & 0x7f,
            velocity_constant_value: self.velocity_constant_value & 0x7f,
            mod_cc: self.mod_cc & 0x7f,
            mod_off_value: self.mod_off_value & 0x7f,
            mod_on_value: self.mod_on_value & 0x7f,
            sustain_cc: self.sustain_cc & 0x7f,
            sustain_off_value: self.sustain_off_value & 0x7f,
            sustain_on_value: self.sustain_on_value & 0x7f,
            ..self
        }
    }

    /// Byte `i` of the scene data that encodes this scene
    /// ("Scene Data Dump Format" of the keyboard's MIDI implementation).
    pub open spec fn spec_byte_at(self, i: int) -> u8 {
        if i == 0 {
            0x7a
        } else if i == 1 {
            self.midi_channel & 0x0f
        } else if i == 3 {
            self.pitch_bend_speed.spec_byte()
        } else if i == 8 {
            0x71
        } else if i == 10 {
            self.transpose & 0x7f
        } else if i == 11 {
            self.velocity_curve.spec_byte()
        } else if i == 12 {
            self.velocity_constant_value & 0x7f
        } else if i == 16 {
            0x03
        } else if i == 19 {
            if self.mod_enable { 1 } else { 0 }
        } else if i == 20 {
            self.mod_cc & 0x7f
        } else if i == 21 {
            self.mod_behaviour.spec_byte()
        } else if i == 22 {
            self.mod_off_value & 0x7f
        } else if i == 23 {
            self.mod_on_value & 0x7f
        } else if i == 24 {
            0x06
        } else if i == 25 {
            self.mod_speed.spec_byte()
        } else if i == 28 {
            if self.sustain_enable { 1 } else { 0 }
        } else if i == 29 {
            self.sustain_cc & 0x7f
        } else if i == 30 {
            self.sustain_behaviour.spec_byte()
        } else if i == 31 {
            self.sustain_off_value & 0x7f
        } else if i == 32 {
            0x7c
        } else if i == 33 {
            self.sustain_on_value & 0x7f
        } else if i == 34 {
            self.sustain_speed.spec_byte()
        } else if i == 72 {
            // one extra byte follows, so the second-last byte has its first bit set
            0x01
        } else {
            0x7f
        }
    }

    /// The scene data that encodes this scene.
    pub open spec fn spec_midi_bytes(self) -> Seq<u8> {
        Seq::new(74, |i: int| self.spec_byte_at(i))
    }

    /// What decoding scene data gives: the scene, or the first parameter
    /// (in field order) whose byte names no value of its type.
    pub open spec fn spec_from_midi_bytes(d: Seq<u8>) -> Result<Scene, InvalidSceneParam> {
        if Speed::spec_from_byte(d[3]) is None {
            Err(InvalidSceneParam { name: "pitch_bend_speed", value: d[3] })
        } else if VelocityCurve::spec_from_byte(d[11]) is None {
            Err(InvalidSceneParam { name: "velocity_curve", value: d[11] })
        } else if ButtonBehaviour::spec_from_byte(d[21]) is None {
            Err(InvalidSceneParam { name: "mod_behaviour", value: d[21] })
        } else if Speed::spec_from_byte(d[25]) is None {
            Err(InvalidSceneParam { name: "pitch_bend_speed", value: d[25] })
        } else if ButtonBehaviour::spec_from_byte(d[30]) is None {
            Err(InvalidSceneParam { name: "mod_behaviour", value: d[30] })
        } else if Speed::spec_from_byte(d[34]) is None {
            Err(InvalidSceneParam { name: "pitch_bend_speed", value: d[34] })
        } else {
            Ok(
                Scene {
                    midi_channel: d[1],
                    pitch_bend_speed: Speed::spec_from_byte(d[3])->0,
                    transpose: d[10],
                    velocity_curve: VelocityCurve::spec_from_byte(d[11])->0,
                    velocity_constant_value: d[12],
                    mod_enable: d[19] != 0,
                    mod_cc: d[20],
                    mod_behaviour: ButtonBehaviour::spec_from_byte(d[21])->0,
                    mod_off_value: d[22],
                    mod_on_value: d[23],
                    mod_speed: Speed::spec_from_byte(d[25])->0,
                    sustain_enable: d[28] != 0,
                    sustain_cc: d[29],
                    sustain_behaviour: ButtonBehaviour::spec_from_byte(d[30])->0,
                    sustain_off_value: d[31],
                    sustain_on_value: d[33],
                    sustain_speed: Speed::spec_from_byte(d[34])->0,
                },
            )
        }
    }

    /// Scene deserialization, in the keyboard's "Scene Data Dump Format"
    pub fn from_midi_bytes(data: &[u8; 74]) -> (res: Result<Self, InvalidSceneParam>)
        ensures
            res == Self::spec_from_midi_bytes(data@),
            res matches Ok(s) ==> {
                &&& s.midi_channel == data@[1]
                &&& s.pitch_bend_speed.spec_byte() == data@[3]
                &&& s.transpose == data@[10]
                &&& s.velocity_curve.spec_byte() == data@[11]
                &&& s.velocity_constant_value == data@[12]
                &&& s.mod_enable == (data@[19] != 0)
                &&& s.mod_cc == data@[20]
                &&& s.mod_behaviour.spec_byte() == data@[21]
                &&& s.mod_off_value == data@[22]
                &&& s.mod_on_value == data@[23]
                &&& s.mod_speed.spec_byte() == data@[25]
                &&& s.sustain_enable == (data@[28] != 0)
                &&& s.sustain_cc == data@[29]
                &&& s.sustain_behaviour.spec_byte() == data@[30]
                &&& s.sustain_off_value == data@[31]
                &&& s.sustain_on_value == data@[33]
                &&& s.sustain_speed.spec_byte() == data@[34]
            },
            (res is Ok) == (data@[3] <= 3 && data@[11] <= 3 && data@[21] <= 1 && data@[25] <= 3 && data@[30] <= 1
                && data@[34] <= 3),
    {
        let pitch_bend_speed = match Speed::try_from(data[3]) {
            Ok(v) => v,
            Err(_) => return Err(InvalidSceneParam::new("pitch_bend_speed", data[3])),
        };
        let velocity_curve = match VelocityCurve::try_from(data[11]) {
            Ok(v) => v,
            Err(_) => return Err(InvalidSceneParam::new("velocity_curve", data[11])),
        };
        let mod_behaviour = match ButtonBehaviour::try_from(data[21]) {
            Ok(v) => v,
            Err(_) => return Err(InvalidSceneParam::new("mod_behaviour", data[21])),
        };
        let mod_speed = match Speed::try_from(data[25]) {
            Ok(v) => v,
            Err(_) => return Err(InvalidSceneParam::new("pitch_bend_speed", data[25])),
        };
        let sustain_behaviour = match ButtonBehaviour::try_from(data[30]) {
            Ok(v) => v,
            Err(_) => return Err(InvalidSceneParam::new("mod_behaviour", data[30])),
        };
        let sustain_speed = match Speed::try_from(data[34]) {
            Ok(v) => v,
            Err(_) => return Err(InvalidSceneParam::new("pitch_bend_speed", data[34])),
        };
        Ok(
            Self {
                midi_channel: data[1],
                pitch_bend_speed,
                transpose: data[10],
                velocity_curve,
                velocity_constant_value: data[12],
                mod_enable: data[19] != 0,
                mod_cc: data[20],
                mod_behaviour,
                mod_off_value: data[22],
                mod_on_value: data[23],
                mod_speed,
                sustain_enable: data[28] != 0,
                sustain_cc: data[29],
                sustain_behaviour,
                sustain_off_value: data[31],
                sustain_on_value: data[33],
                sustain_speed,
            },
        )
    }

    /// Scene serialization, in the keyboard's "Scene Data Dump Format"
    pub fn to_midi_bytes(&self) -> (data: [u8; 74])
        ensures
            data@ == self.spec_midi_bytes(),
            data@.len() == 74,
            data@[0] == 0x7a,
            data@[1] == self.midi_channel & 0x0f,
            data@[3] == self.pitch_bend_speed.spec_byte(),
            data@[8] == 0x71,
            data@[10] == self.transpose & 0x7f,
            data@[11] == self.velocity_curve.spec_byte(),
            data@[12] == self.velocity_constant_value & 0x7f,
            data@[16] == 0x03,
            data@[19] == (if self.mod_enable { 1u8 } else { 0u8 }),
            data@[20] == self.mod_cc & 0x7f,
            data@[21] == self.mod_behaviour.spec_byte(),
            data@[22] == self.mod_off_value & 0x7f,
            data@[23] == self.mod_on_value & 0x7f,
            data@[24] == 0x06,
            data@[25] == self.mod_speed.spec_byte(),
            data@[28] == (if self.sustain_enable { 1u8 } else { 0u8 }),
            data@[29] == self.sustain_cc & 0x7f,
            data@[30] == self.sustain_behaviour.spec_byte(),
            data@[31] == self.sustain_off_value & 0x7f,
            data@[32] == 0x7c,
            data@[33] == self.sustain_on_value & 0x7f,
            data@[34] == self.sustain_speed.spec_byte(),
            data@[72] == 0x01,
            forall|i: int| 0 <= i < 74 && !is_scene_byte_position(i) ==> data@[i] == 0x7f,
    {
        let mut data = [0x7fu8; 74];

        data[0] = 0b0111_1010;
        data[1] = self.midi_channel & 0b1111;
        data[3] = self.pitch_bend_speed.into();

        data[8] = 0b0111_0001;
        data[10] = self.transpose & 0b0111_1111;
        data[11] = self.velocity_curve.into();
        data[12] = self.velocity_constant_value & 0b0111_1111;

        data[16] = 0b0000_0011;
        data[19] = if self.mod_enable { 1 } else { 0 };
        data[20] = self.mod_cc & 0b0111_1111;
        data[21] = self.mod_behaviour.into();
        data[22] = self.mod_off_value & 0b0111_1111;
        data[23] = self.mod_on_value & 0b0111_1111;

        data[24] = 0b0000_0110;
        data[25] = self.mod_speed.into();
        data[28] = if self.sustain_enable { 1 } else { 0 };
        data[29] = self.sustain_cc & 0b0111_1111;
        data[30] = self.sustain_behaviour.into();
        data[31] = self.sustain_off_value & 0b0111_1111;

        data[32] = 0b0111_1100;
        data[33] = self.sustain_on_value & 0b0111_1111;
        data[34] = self.sustain_speed.into();

        // there is 1 extra byte, so 2nd-last byte has first bit set
        data[72] = 0b0000_0001;

        assert(data@ =~= self.spec_midi_bytes());
        data
    }
}


/// Decoding the scene data of any scene gives that scene back, with each
/// numeric field cut down to the bits that scene data gives it.
pub proof fn lemma_scene_bytes_decode(s: Scene)
    ensures
        Scene::spec_from_midi_bytes(s.spec_midi_bytes()) == Ok::<Scene, InvalidSceneParam>(
            s.masked(),
        ),
{
    let d = s.spec_midi_bytes();
    assert(d[3] == s.pitch_bend_speed.spec_byte());
    assert(d[11] == s.velocity_curve.spec_byte());
    assert(d[19] == (if s.mod_enable { 1u8 } else { 0u8 }));
    assert(d[21] == s.mod_behaviour.spec_byte());
    assert(d[25] == s.mod_speed.spec_byte());
    assert(d[28] == (if s.sustain_enable { 1u8 } else { 0u8 }));
    assert(d[30] == s.sustain_behaviour.spec_byte());
    assert(d[34] == s.sustain_speed.spec_byte());
}

/// A valid scene survives encoding to scene data and decoding back unchanged.
pub proof fn lemma_scene_bytes_round_trip(s: Scene)
    requires
        s.is_valid(),
    ensures
        Scene::spec_from_midi_bytes(s.spec_midi_bytes()) == Ok::<Scene, InvalidSceneParam>(s),
{
    lemma_scene_bytes_decode(s);
    assert(forall|x: u8| x < 128 ==> #[trigger] (x & 0x7f) == x) by (bit_vector);
    assert(forall|x: u8| x < 16 ==> #[trigger] (x & 0x0f) == x) by (bit_vector);
    assert(s.masked() == s);
}

/// The positions of scene data that carry a field or a fixed marker byte;
/// every other byte is 0x7F.
pub open spec fn is_scene_byte_position(i: int) -> bool {
    i == 0 || i == 1 || i == 3 || i == 8 || i == 10 || i == 11 || i == 12 || i == 16 || i == 19
        || i == 20 || i == 21 || i == 22 || i == 23 || i == 24 || i == 25 || i == 28 || i == 29
        || i == 30 || i == 31 || i == 32 || i == 33 || i == 34 || i == 72
}

/// Each field of a scene sits at its own byte of the scene data, cut to
/// the bits that byte gives it; the marker bytes are fixed and every other
/// byte is 0x7F.
pub proof fn lemma_scene_bytes_layout(s: Scene)
    ensures
        s.spec_midi_bytes().len() == 74,
        s.spec_midi_bytes()[0] == 0x7a,
        s.spec_midi_bytes()[1] == s.midi_channel & 0x0f,
        s.spec_midi_bytes()[3] == s.pitch_bend_speed.spec_byte(),
        s.spec_midi_bytes()[8] == 0x71,
        s.spec_midi_bytes()[10] == s.transpose & 0x7f,
        s.spec_midi_bytes()[11] == s.velocity_curve.spec_byte(),
        s.spec_midi_bytes()[12] == s.velocity_constant_value & 0x7f,
        s.spec_midi_bytes()[16] == 0x03,
        s.spec_midi_bytes()[19] == (if s.mod_enable { 1u8 } else { 0u8 }),
        s.spec_midi_bytes()[20] == s.mod_cc & 0x7f,
        s.spec_midi_bytes()[21] == s.mod_behaviour.spec_byte(),
        s.spec_midi_bytes()[22] == s.mod_off_value & 0x7f,
        s.spec_midi_bytes()[23] == s.mod_on_value & 0x7f,
        s.spec_midi_bytes()[24] == 0x06,
        s.spec_midi_bytes()[25] == s.mod_speed.spec_byte(),
        s.spec_midi_bytes()[28] == (if s.sustain_enable { 1u8 } else { 0u8 }),
        s.spec_midi_bytes()[29] == s.sustain_cc & 0x7f,
        s.spec_midi_bytes()[30] == s.sustain_behaviour.spec_byte(),
        s.spec_midi_bytes()[31] == s.sustain_off_value & 0x7f,
        s.spec_midi_bytes()[32] == 0x7c,
        s.spec_midi_bytes()[33] == s.sustain_on_value & 0x7f,
        s.spec_midi_bytes()[34] == s.sustain_speed.spec_byte(),
        s.spec_midi_bytes()[72] == 0x01,
        forall|i: int| 0 <= i < 74 && !is_scene_byte_position(i) ==> s.spec_midi_bytes()[i] == 0x7f,
{
}

/// Decoding scene data reads each field from its own byte, and succeeds
/// exactly when the six enumerated bytes name values of their types.
pub proof fn lemma_scene_bytes_fields(d: Seq<u8>)
    requires
        d.len() == 74,
    ensures
        Scene::spec_from_midi_bytes(d) matches Ok(s) ==> {
            &&& s.midi_channel == d[1]
            &&& s.pitch_bend_speed.spec_byte() == d[3]
            &&& s.transpose == d[10]
            &&& s.velocity_curve.spec_byte() == d[11]
            &&& s.velocity_constant_value == d[12]
            &&& s.mod_enable == (d[19] != 0)
            &&& s.mod_cc == d[20]
            &&& s.mod_behaviour.spec_byte() == d[21]
            &&& s.mod_off_value == d[22]
            &&& s.mod_on_value == d[23]
            &&& s.mod_speed.spec_byte() == d[25]
            &&& s.sustain_enable == (d[28] != 0)
            &&& s.sustain_cc == d[29]
            &&& s.sustain_behaviour.spec_byte() == d[30]
            &&& s.sustain_off_value == d[31]
            &&& s.sustain_on_value == d[33]
            &&& s.sustain_speed.spec_byte() == d[34]
        },
        (Scene::spec_from_midi_bytes(d) is Ok) == (d[3] <= 3 && d[11] <= 3 && d[21] <= 1 && d[25] <= 3 && d[30] <= 1
            && d[34] <= 3),
{
}

/// The bytes of the enumerated settings in scene data: speeds 0..=3 from
/// immediate to slow, curves 0..=3 from light to constant, behaviours 0
/// (momentary) and 1 (toggle); reading a byte gives back the value written.
pub proof fn lemma_setting_bytes()
    ensures
        Speed::Immediate.spec_byte() == 0 && Speed::Fast.spec_byte() == 1
            && Speed::Normal.spec_byte() == 2 && Speed::Slow.spec_byte() == 3,
        VelocityCurve::Light.spec_byte() == 0 && VelocityCurve::Normal.spec_byte() == 1
            && VelocityCurve::Heavy.spec_byte() == 2 && VelocityCurve::Const.spec_byte() == 3,
        ButtonBehaviour::Momentary.spec_byte() == 0 && ButtonBehaviour::Toggle.spec_byte() == 1,
        forall|v: Speed| Speed::spec_from_byte(#[trigger] v.spec_byte()) == Some(v),
        forall|v: VelocityCurve| VelocityCurve::spec_from_byte(#[trigger] v.spec_byte()) == Some(v),
        forall|v: ButtonBehaviour| ButtonBehaviour::spec_from_byte(#[trigger] v.spec_byte()) == Some(
            v,
        ),
{
}

} // verus!
