use nk2view::nk2::midi::{ManufacturerId, SysExEvent, SysExKind};
use nk2view::nk2::msg::{
    dump_scene_request, load_scene_request, restore_scene_request, save_scene_request, Ack,
    ParseAckError, ParseSceneDumpError, SceneDump,
};
use nk2view::nk2::scene::{ButtonBehaviour, Scene, Speed, VelocityCurve};

fn dump_data() -> Vec<u8> {
    vec![
        64, 0, 1, 17, 1, 127, 75, 64, 122, 0, 127, 2, 127, 127, 127, 127, 113, 127, 66, 1, 100,
        127, 127, 127, 3, 127, 127, 1, 1, 0, 0, 127, 6, 2, 127, 127, 1, 64, 0, 0, 124, 127, 2,
        127, 127, 127, 127, 127, 127, 127, 127, 127, 127, 127, 127, 127, 127, 127, 127, 127,
        127, 127, 127, 127, 127, 127, 127, 127, 127, 127, 127, 127, 127, 127, 127, 127, 127,
        127, 127, 127, 1, 127, 247,
    ]
}

fn korg(data: Vec<u8>) -> SysExEvent {
    SysExEvent { kind: SysExKind::Manufacturer(ManufacturerId::Id(66)), data }
}

#[test]
fn test_scene_dump() {
    let evt = SysExEvent {
        kind: SysExKind::Manufacturer(ManufacturerId::Id(66)),
        data: dump_data(),
    };
    let msg = SceneDump::parse_sysex(&evt).unwrap();
    let expected = SceneDump(
        0,
        Scene {
            midi_channel: 0,
            pitch_bend_speed: Speed::Normal,
            transpose: 66,
            velocity_curve: VelocityCurve::Normal,
            velocity_constant_value: 100,
            mod_enable: true,
            mod_cc: 1,
            mod_behaviour: ButtonBehaviour::Momentary,
            mod_off_value: 0,
            mod_on_value: 127,
            mod_speed: Speed::Normal,
            sustain_enable: true,
            sustain_cc: 64,
            sustain_behaviour: ButtonBehaviour::Momentary,
            sustain_off_value: 0,
            sustain_on_value: 127,
            sustain_speed: Speed::Normal,
        },
    );
    assert_eq!(msg, expected);
}

#[test]
fn scene_dump_channel_comes_from_low_nibble() {
    let mut data = dump_data();
    data[0] = 0x4b;
    assert_eq!(SceneDump::parse_sysex(&korg(data)).unwrap().0, 11);
}

#[test]
fn scene_dump_rejects_other_senders() {
    let evt = SysExEvent { kind: SysExKind::Manufacturer(ManufacturerId::Id(0x41)), data: dump_data() };
    assert!(matches!(SceneDump::parse_sysex(&evt), Err(ParseSceneDumpError::NotDump)));
    let evt = SysExEvent { kind: SysExKind::Manufacturer(ManufacturerId::ExtId(0, 0x42)), data: dump_data() };
    assert!(matches!(SceneDump::parse_sysex(&evt), Err(ParseSceneDumpError::NotDump)));
    let evt = SysExEvent { kind: SysExKind::Universal, data: dump_data() };
    assert!(matches!(SceneDump::parse_sysex(&evt), Err(ParseSceneDumpError::NotDump)));
}

#[test]
fn scene_dump_rejects_malformed_data() {
    let mut short = dump_data();
    short.pop();
    assert!(matches!(SceneDump::parse_sysex(&korg(short)), Err(ParseSceneDumpError::Malformed)));

    let mut bad_channel = dump_data();
    bad_channel[0] = 0x50;
    assert!(matches!(SceneDump::parse_sysex(&korg(bad_channel)), Err(ParseSceneDumpError::Malformed)));

    let mut bad_preamble = dump_data();
    bad_preamble[5] = 0x5f;
    assert!(matches!(SceneDump::parse_sysex(&korg(bad_preamble)), Err(ParseSceneDumpError::Malformed)));

    let mut bad_end = dump_data();
    bad_end[82] = 0x7f;
    assert!(matches!(SceneDump::parse_sysex(&korg(bad_end)), Err(ParseSceneDumpError::Malformed)));
}

#[test]
fn scene_dump_reports_invalid_scene() {
    let mut data = dump_data();
    data[8 + 11] = 5;
    match SceneDump::parse_sysex(&korg(data)) {
        Err(ParseSceneDumpError::InvalidScene(e)) => {
            assert_eq!(e.name, "velocity_curve");
            assert_eq!(e.value, 5);
        }
        other => panic!("unexpected {other:?}"),
    }
}

fn ack_data(code: u8) -> Vec<u8> {
    vec![0x43, 0x00, 0x01, 0x11, 0x01, 0x5f, code, 0x00, 0xf7]
}

#[test]
fn ack_codes() {
    assert_eq!(Ack::parse_sysex(&korg(ack_data(0x23))).unwrap(), Ack::LoadCompleted(3));
    assert_eq!(Ack::parse_sysex(&korg(ack_data(0x24))).unwrap(), Ack::LoadError(3));
    assert_eq!(Ack::parse_sysex(&korg(ack_data(0x21))).unwrap(), Ack::WriteCompleted(3));
    assert_eq!(Ack::parse_sysex(&korg(ack_data(0x22))).unwrap(), Ack::WriteError(3));
    assert!(matches!(Ack::parse_sysex(&korg(ack_data(0x30))), Err(ParseAckError::Unknown(0x30))));
}

#[test]
fn ack_rejects_other_messages() {
    let evt = SysExEvent { kind: SysExKind::Manufacturer(ManufacturerId::Id(7)), data: ack_data(0x23) };
    assert!(matches!(Ack::parse_sysex(&evt), Err(ParseAckError::NotAck)));
    // a scene dump is no acknowledgement
    assert!(matches!(Ack::parse_sysex(&korg(dump_data())), Err(ParseAckError::NotAck)));

    let mut bad_channel = ack_data(0x23);
    bad_channel[0] = 0x33;
    assert!(matches!(Ack::parse_sysex(&korg(bad_channel)), Err(ParseAckError::Malformed)));
    let mut bad_preamble = ack_data(0x23);
    bad_preamble[5] = 0x4b;
    assert!(matches!(Ack::parse_sysex(&korg(bad_preamble)), Err(ParseAckError::Malformed)));
    let mut bad_end = ack_data(0x23);
    bad_end[7] = 0x01;
    assert!(matches!(Ack::parse_sysex(&korg(bad_end)), Err(ParseAckError::Malformed)));
}

#[test]
fn request_bytes() {
    assert_eq!(
        dump_scene_request(0),
        vec![0xf0, 0x42, 0x40, 0x00, 0x01, 0x11, 0x01, 0x1f, 0x10, 0x00, 0xf7]
    );
    assert_eq!(
        save_scene_request(5),
        vec![0xf0, 0x42, 0x45, 0x00, 0x01, 0x11, 0x01, 0x1f, 0x11, 0x00, 0xf7]
    );
    // only the low nibble of the channel is used
    assert_eq!(
        restore_scene_request(0x1f),
        vec![0xf0, 0x42, 0x4f, 0x00, 0x01, 0x11, 0x01, 0x1f, 0x14, 0x00, 0xf7]
    );
}

#[test]
fn load_request_carries_scene() {
    let scene = Scene::default();
    let bytes = load_scene_request(2, &scene);
    assert_eq!(bytes.len(), 2 + 7 + 74 + 1);
    assert_eq!(&bytes[..9], &[0xf0, 0x42, 0x42, 0x00, 0x01, 0x11, 0x01, 0x4b, 0x40]);
    assert_eq!(&bytes[9..83], &scene.to_midi_bytes()[..]);
    assert_eq!(bytes[83], 0xf7);
    let mut carried = [0u8; 74];
    carried.copy_from_slice(&bytes[9..83]);
    assert_eq!(Scene::from_midi_bytes(&carried).unwrap(), scene);
}

#[test]
fn dump_round_trip_of_valid_scene() {
    let mut scene = Scene::default();
    scene.midi_channel = 9;
    scene.velocity_curve = VelocityCurve::Light;
    let mut data = vec![0x49, 0x00, 0x01, 0x11, 0x01, 0x7f, 0x4b, 0x40];
    data.extend_from_slice(&scene.to_midi_bytes());
    data.push(0xf7);
    assert_eq!(SceneDump::parse_sysex(&korg(data)).unwrap(), SceneDump(9, scene));
}

#[test]
fn invalid_scene_converts_to_dump_error() {
    let e = nk2view::nk2::scene::InvalidSceneParam::new("velocity_curve", 9);
    match ParseSceneDumpError::from(e) {
        ParseSceneDumpError::InvalidScene(inner) => {
            assert_eq!(inner.name, "velocity_curve");
            assert_eq!(inner.value, 9);
        }
        other => panic!("unexpected {other:?}"),
    }
}
