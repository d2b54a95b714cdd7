use nk2view::nk2::eventloop::{
    after_session, session_step, AfterSession, KBAction, KBEvent, SessionError, SessionInput,
    SessionStep,
};
use nk2view::nk2::midi::{midi_is_readable, ManufacturerId, MidiEvent, SysExEvent, SysExKind};
use nk2view::nk2::msg::Ack;

#[test]
fn raw_note_messages() {
    assert!(matches!(KBEvent::from_raw_midi(&[0x90, 60, 100]), Some(KBEvent::NoteOn(60))));
    assert!(matches!(KBEvent::from_raw_midi(&[0x93, 61, 1]), Some(KBEvent::NoteOn(61))));
    assert!(matches!(KBEvent::from_raw_midi(&[0x80, 62, 0]), Some(KBEvent::NoteOff(62))));
}

#[test]
fn raw_control_changes() {
    assert!(matches!(KBEvent::from_raw_midi(&[0xb0, 123, 0]), Some(KBEvent::AllNotesOff)));
    assert!(matches!(KBEvent::from_raw_midi(&[0xb2, 120, 0]), Some(KBEvent::AllNotesOff)));
    assert!(KBEvent::from_raw_midi(&[0xb0, 7, 100]).is_none());
}

#[test]
fn raw_other_messages() {
    assert!(KBEvent::from_raw_midi(&[0xc0, 1, 0]).is_none());
    assert!(KBEvent::from_raw_midi(&[0x90, 60]).is_none());
    assert!(KBEvent::from_raw_midi(&[0xf8, 0, 0]).is_none());
    // universal system exclusive
    assert!(KBEvent::from_raw_midi(&[0xf0, 0x7e, 0, 6, 2, 0xf7]).is_none());
}

#[test]
fn raw_sysex_ack() {
    let raw = [0xf0, 0x42, 0x41, 0x00, 0x01, 0x11, 0x01, 0x5f, 0x24, 0x00, 0xf7];
    assert!(matches!(KBEvent::from_raw_midi(&raw), Some(KBEvent::Ack(Ack::LoadError(1)))));
}

#[test]
fn raw_sysex_scene_dump() {
    let mut raw = vec![0xf0, 0x42, 0x40, 0x00, 0x01, 0x11, 0x01, 0x7f, 0x4b, 0x40];
    raw.extend_from_slice(&nk2view::nk2::scene::Scene::default().to_midi_bytes());
    raw.push(0xf7);
    match KBEvent::from_raw_midi(&raw) {
        Some(KBEvent::SceneDump(scene)) => assert_eq!(scene, nk2view::nk2::scene::Scene::default()),
        other => panic!("unexpected {other:?}"),
    }
}

#[test]
fn midi_event_to_kb_event() {
    assert!(matches!(KBEvent::from_midi_message(&MidiEvent::NoteOn(5)), Some(KBEvent::NoteOn(5))));
    assert!(matches!(KBEvent::from_midi_message(&MidiEvent::ControlChange(120)), Some(KBEvent::AllNotesOff)));
    assert!(KBEvent::from_midi_message(&MidiEvent::ControlChange(121)).is_none());
    assert!(KBEvent::from_midi_message(&MidiEvent::Other).is_none());
    let evt = SysExEvent {
        kind: SysExKind::Manufacturer(ManufacturerId::Id(0x42)),
        data: vec![0x40, 0x00, 0x01, 0x11, 0x01, 0x5f, 0x21, 0x00, 0xf7],
    };
    assert!(matches!(KBEvent::from_midi_message(&MidiEvent::SysEx(evt)), Some(KBEvent::Ack(Ack::WriteCompleted(0)))));
}

#[test]
fn session_steps() {
    assert!(matches!(session_step(SessionInput::MidiIn(vec![0x90, 1, 2])), SessionStep::Forward(KBEvent::NoteOn(1))));
    assert!(matches!(session_step(SessionInput::MidiIn(vec![0xe0, 1, 2])), SessionStep::Ignore));
    match session_step(SessionInput::Perform(KBAction::Send(vec![1, 2, 3]))) {
        SessionStep::Transmit(bytes) => assert_eq!(bytes, vec![1, 2, 3]),
        other => panic!("unexpected {other:?}"),
    }
    assert!(matches!(session_step(SessionInput::Perform(KBAction::Reconnect)), SessionStep::Finish(Ok(()))));
    assert!(matches!(session_step(SessionInput::MainThreadDropped), SessionStep::Finish(Err(SessionError::MainThreadDropped))));
    match session_step(SessionInput::MidiWorkerDied) {
        SessionStep::Finish(Err(SessionError::ConnectionLost(text))) => {
            assert_eq!(text, "MIDI worker ended unexpectedly")
        }
        other => panic!("unexpected {other:?}"),
    }
}

#[test]
fn after_session_outcomes() {
    assert!(matches!(after_session(Err(SessionError::MainThreadDropped)), AfterSession::Stop));
    match after_session(Ok(())) {
        AfterSession::Retry { event: KBEvent::ConnectionLost(text), pause } => {
            assert_eq!(text, "user-triggered refresh");
            assert!(!pause);
        }
        other => panic!("unexpected {other:?}"),
    }
    match after_session(Err(SessionError::ConnectionLost("no port".to_string()))) {
        AfterSession::Retry { event: KBEvent::ConnectionLost(text), pause } => {
            assert_eq!(text, "no port");
            assert!(pause);
        }
        other => panic!("unexpected {other:?}"),
    }
}

#[test]
fn readable_midi() {
    assert!(midi_is_readable(&[0x90, 1, 2]));
    assert!(midi_is_readable(&[0xf0, 0x42]));
    assert!(midi_is_readable(&[0xf0, 0x42, 0xf7]));
    assert!(!midi_is_readable(&[0xf0, 0x00, 0x20]));
    assert!(midi_is_readable(&[0xf0, 0x00, 0x20, 0x6b]));
    assert!(!midi_is_readable(&[0xf0, 0x7e, 0x00, 0x06]));
    assert!(!midi_is_readable(&[0xf0, 0x7f, 0x00]));
    assert!(midi_is_readable(&[0xf0, 0x7f, 0x00, 0x06, 0x02]));
}

#[test]
fn raw_extended_manufacturer_sysex() {
    // an extended manufacturer id is not Korg's
    assert!(KBEvent::from_raw_midi(&[0xf0, 0x00, 0x20, 0x6b, 0x7f, 0xf7]).is_none());
}

#[test]
fn written_request_reads_back_as_sysex() {
    let raw = nk2view::nk2::msg::dump_scene_request(4);
    assert!(midi_is_readable(&raw));
    // a request is neither an acknowledgement nor a scene dump
    assert!(KBEvent::from_raw_midi(&raw).is_none());
    assert!(matches!(KBEvent::from_raw_midi(&[0xa0, 60, 10]), None));
}
