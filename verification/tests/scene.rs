use nk2view::nk2::scene::{ButtonBehaviour, Scene, Speed, VelocityCurve};

const SCENE_A_DATA: [u8; 74] = [
    122, 0, 127, 2, 127, 127, 127, 127, 113, 127, 66, 1, 100, 127, 127, 127, 3, 127, 127, 1, 1,
    0, 0, 127, 6, 2, 127, 127, 1, 64, 0, 0, 124, 127, 2, 127, 127, 127, 127, 127, 127, 127,
    127, 127, 127, 127, 127, 127, 127, 127, 127, 127, 127, 127, 127, 127, 127, 127, 127, 127,
    127, 127, 127, 127, 127, 127, 127, 127, 127, 127, 127, 127, 1, 127,
];

const SCENE_A: Scene = Scene {
    midi_channel: 0,
    pitch_bend_speed: Speed::Normal,
    transpose: 66,
    velocity_curve: VelocityCurve::Normal,
    velocity_constant_value: 100,
    mod_enable: true,
    mod_cc: 1,
    mod_behaviour: ButtonBehaviour::Momentary,
    mod_off_value: 0,
    mod_on_value: 127,
    mod_speed: Speed::Normal,
    sustain_enable: true,
    sustain_cc: 64,
    sustain_behaviour: ButtonBehaviour::Momentary,
    sustain_off_value: 0,
    sustain_on_value: 127,
    sustain_speed: Speed::Normal,
};

#[test]
fn test_parse() {
    let scene = Scene::from_midi_bytes(&SCENE_A_DATA).unwrap();
    assert_eq!(scene, SCENE_A);
}

#[test]
fn test_serialize() {
    assert_eq!(SCENE_A.to_midi_bytes(), SCENE_A_DATA);
}

#[test]
fn default_scene_round_trips() {
    let scene = Scene::default();
    assert_eq!(scene.transpose, 64);
    assert_eq!(scene.velocity_constant_value, 100);
    assert_eq!(Scene::from_midi_bytes(&scene.to_midi_bytes()).unwrap(), scene);
}

#[test]
fn varied_scene_round_trips() {
    let scene = Scene {
        midi_channel: 15,
        pitch_bend_speed: Speed::Slow,
        transpose: 52,
        velocity_curve: VelocityCurve::Const,
        velocity_constant_value: 127,
        mod_enable: false,
        mod_cc: 74,
        mod_behaviour: ButtonBehaviour::Toggle,
        mod_off_value: 3,
        mod_on_value: 90,
        mod_speed: Speed::Immediate,
        sustain_enable: false,
        sustain_cc: 65,
        sustain_behaviour: ButtonBehaviour::Toggle,
        sustain_off_value: 10,
        sustain_on_value: 100,
        sustain_speed: Speed::Fast,
    };
    assert_eq!(Scene::from_midi_bytes(&scene.to_midi_bytes()).unwrap(), scene);
}

#[test]
fn serialize_masks_out_of_range_fields() {
    let mut scene = Scene::default();
    scene.midi_channel = 0x13;
    scene.transpose = 0xc2;
    scene.mod_cc = 0x81;
    let data = scene.to_midi_bytes();
    assert_eq!(data[1], 0x03);
    assert_eq!(data[10], 0x42);
    assert_eq!(data[20], 0x01);
    let back = Scene::from_midi_bytes(&data).unwrap();
    assert_eq!(back.midi_channel, 3);
    assert_eq!(back.transpose, 0x42);
    assert_eq!(back.mod_cc, 1);
}

#[test]
fn serialize_fixed_bytes() {
    let data = Scene::default().to_midi_bytes();
    assert_eq!(data[0], 0x7a);
    assert_eq!(data[8], 0x71);
    assert_eq!(data[16], 0x03);
    assert_eq!(data[24], 0x06);
    assert_eq!(data[32], 0x7c);
    assert_eq!(data[72], 0x01);
    assert_eq!(data[2], 0x7f);
    assert_eq!(data[73], 0x7f);
}

#[test]
fn parse_rejects_each_invalid_parameter() {
    let cases: [(usize, &str); 6] = [
        (3, "pitch_bend_speed"),
        (11, "velocity_curve"),
        (21, "mod_behaviour"),
        (25, "pitch_bend_speed"),
        (30, "mod_behaviour"),
        (34, "pitch_bend_speed"),
    ];
    for (pos, name) in cases {
        let mut data = SCENE_A_DATA;
        data[pos] = 9;
        let err = Scene::from_midi_bytes(&data).unwrap_err();
        assert_eq!(err.name, name);
        assert_eq!(err.value, 9);
    }
}

#[test]
fn parse_reports_first_invalid_parameter() {
    let mut data = SCENE_A_DATA;
    data[30] = 7;
    data[11] = 4;
    let err = Scene::from_midi_bytes(&data).unwrap_err();
    assert_eq!(err.name, "velocity_curve");
    assert_eq!(err.value, 4);
}

#[test]
fn enabled_flags_read_any_nonzero_byte() {
    let mut data = SCENE_A_DATA;
    data[19] = 0;
    data[28] = 77;
    let scene = Scene::from_midi_bytes(&data).unwrap();
    assert!(!scene.mod_enable);
    assert!(scene.sustain_enable);
}

#[test]
fn enum_byte_conversions() {
    assert_eq!(Speed::try_from(3u8), Ok(Speed::Slow));
    assert_eq!(Speed::try_from(4u8), Err(4));
    assert_eq!(VelocityCurve::try_from(2u8), Ok(VelocityCurve::Heavy));
    assert_eq!(ButtonBehaviour::try_from(2u8), Err(2));
    assert_eq!(u8::from(VelocityCurve::Const), 3);
    assert_eq!(u8::from(ButtonBehaviour::Toggle), 1);
    assert_eq!(u8::from(Speed::Fast), 1);
}

#[test]
fn invalid_scene_param_new() {
    let e = nk2view::nk2::scene::InvalidSceneParam::new("transpose", 200);
    assert_eq!(e.name, "transpose");
    assert_eq!(e.value, 200);
}
