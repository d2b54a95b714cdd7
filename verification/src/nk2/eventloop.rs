//! The decisions of the keyboard connection's event loop: which incoming
//! MIDI messages become events, what each loop input leads to, and what
//! follows the end of a session.
use vstd::prelude::*;
use crate::nk2::midi::{
    is_readable_midi, read_midi, spec_read_midi, ManufacturerId, MidiEvent, MidiEventView, SysExKind,
    SysExView,
};
use crate::nk2::msg::{
    lemma_scene_dump_round_trip, scene_dump_data, Ack, ParseSceneDumpError, SceneDump, KORG_ID,
};
use crate::nk2::scene::Scene;

verus! {

/// Limited subset of MIDI events from keyboard to client
#[derive(Debug, Clone)]
pub enum KBEvent {
    // messages from keyboard
    NoteOn(u8),
    NoteOff(u8),
    AllNotesOff,
    SceneDump(Scene),
    Ack(Ack),
    // messages from establishing connection with keyboard
    ConnectionEstablished,
    ConnectionLost(String),
}

/// Control change number of "all sound off".
pub const ALL_SOUND_OFF: u8 = 120;

/// Control change number of "all notes off".
pub const ALL_NOTES_OFF: u8 = 123;

impl KBEvent {
    /// The event that an incoming MIDI message stands for, if any.
    pub open spec fn spec_from_midi_message(msg: MidiEventView) -> Option<KBEvent> {
        match msg {
            MidiEventView::NoteOn(key) => Some(KBEvent::NoteOn(key)),
            MidiEventView::NoteOff(key) => Some(KBEvent::NoteOff(key)),
            MidiEventView::ControlChange(control) => if control == ALL_SOUND_OFF || control
                == ALL_NOTES_OFF {
                Some(KBEvent::AllNotesOff)
            } else {
                None
            },
            MidiEventView::SysEx(evt) => match Ack::spec_parse_sysex(evt) {
                Ok(ack) => Some(KBEvent::Ack(ack)),
                Err(_) => match SceneDump::spec_parse_sysex(evt) {
                    Ok(dump) => Some(KBEvent::SceneDump(dump.1)),
                    Err(_) => None,
                },
            },
            MidiEventView::Other => None,
        }
    }

    pub fn from_midi_message(msg: &MidiEvent) -> (res: Option<Self>)
        ensures
            res == Self::spec_from_midi_message(msg@),
            msg@ matches MidiEventView::SysEx(evt) ==> (Ack::spec_parse_sysex(evt) is Err
                && SceneDump::spec_parse_sysex(evt) is Ok ==> res == Some(
                KBEvent::SceneDump(SceneDump::spec_parse_sysex(evt)->Ok_0.1),
            )),
            msg@ matches MidiEventView::SysEx(evt) ==> (Ack::spec_parse_sysex(evt) is Ok ==> res
                == Some(KBEvent::Ack(Ack::spec_parse_sysex(evt)->Ok_0))),
    {
        match msg {
            MidiEvent::NoteOn(key) => Some(KBEvent::NoteOn(*key)),
            MidiEvent::NoteOff(key) => Some(KBEvent::NoteOff(*key)),
            MidiEvent::ControlChange(control) => {
                if *control == ALL_SOUND_OFF || *control == ALL_NOTES_OFF {
                    Some(KBEvent::AllNotesOff)
                } else {
                    None
                }
            },
            MidiEvent::SysEx(evt) => {
                if let Ok(ack) = Ack::parse_sysex(evt) {
                    Some(KBEvent::Ack(ack))
                } else if let Ok(dump) = SceneDump::parse_sysex(evt) {
                    Some(KBEvent::SceneDump(dump.1))
                } else {
                    // other system exclusive messages are not handled
                    None
                }
            },
            // ignore all other messages
            MidiEvent::Other => None,
        }
    }

    /// The event that raw MIDI bytes from the keyboard stand for, if any.
    pub fn from_raw_midi(raw: &[u8]) -> (res: Option<Self>)
        requires
            is_readable_midi(raw@),
        ensures
            res == Self::spec_from_midi_message(spec_read_midi(raw@)),
    {
        let msg = read_midi(raw);
        Self::from_midi_message(&msg)
    }
}

/// Actions we can perform to the keyboard
#[derive(Debug, Clone)]
pub enum KBAction {
    Reconnect,
    /// Send these raw MIDI bytes.
    Send(Vec<u8>),
}

/// Why a session with the keyboard ended.
#[derive(Debug, Clone)]
pub enum SessionError {
    ConnectionLost(String),
    MainThreadDropped,
}

/// What the session loop receives next.
#[derive(Debug, Clone)]
pub enum SessionInput {
    /// Raw MIDI bytes from the keyboard.
    MidiIn(Vec<u8>),
    /// The MIDI input worker ended.
    MidiWorkerDied,
    /// The application asks for an action.
    Perform(KBAction),
    /// The application dropped its command sender.
    MainThreadDropped,
}

/// What the session loop does with an input.
#[derive(Debug)]
pub enum SessionStep {
    /// Hand this event to the application.
    Forward(KBEvent),
    /// Nothing to do.
    Ignore,
    /// Send these raw MIDI bytes to the keyboard.
    Transmit(Vec<u8>),
    /// End the session with this result; `Ok` asks for a fresh connection.
    Finish(Result<(), SessionError>),
}

/// The input is raw MIDI bytes that `midi_control` cannot read without panicking.
pub open spec fn is_unreadable_input(input: SessionInput) -> bool {
    input matches SessionInput::MidiIn(raw) && !is_readable_midi(raw@)
}

/// The text of the session end when the MIDI input worker dies.
pub open spec fn worker_died_text() -> Seq<char> {
    "MIDI worker ended unexpectedly"@
}

/// The text reported after a refresh that the user asked for.
pub open spec fn refresh_text() -> Seq<char> {
    "user-triggered refresh"@
}

/// `step` is what the session loop does with `input`.
pub open spec fn is_session_step(input: SessionInput, step: SessionStep) -> bool {
    match input {
        SessionInput::MidiIn(raw) => match KBEvent::spec_from_midi_message(spec_read_midi(raw@)) {
            Some(evt) => step == SessionStep::Forward(evt),
            None => step is Ignore,
        },
        SessionInput::MidiWorkerDied => step matches SessionStep::Finish(
            Err(SessionError::ConnectionLost(text)),
        ) && text@ == worker_died_text(),
        SessionInput::Perform(KBAction::Send(bytes)) => step == SessionStep::Transmit(bytes),
        SessionInput::Perform(KBAction::Reconnect) => step matches SessionStep::Finish(Ok(())),
        SessionInput::MainThreadDropped => step matches SessionStep::Finish(
            Err(SessionError::MainThreadDropped),
        ),
    }
}

/// One turn of the session loop: connects to the keyboard's messages, the
/// application's commands and the state of both ends.
pub fn session_step(input: SessionInput) -> (step: SessionStep)
    requires
        !is_unreadable_input(input),
    ensures
        is_session_step(input, step),
{
    match input {
        // receive keyboard event
        SessionInput::MidiIn(raw) => match KBEvent::from_raw_midi(raw.as_slice()) {
            Some(evt) => SessionStep::Forward(evt),
            None => SessionStep::Ignore,
        },
        SessionInput::MidiWorkerDied => SessionStep::Finish(
            Err(SessionError::ConnectionLost("MIDI worker ended unexpectedly".to_owned())),
        ),
        // send keyboard event
        SessionInput::Perform(KBAction::Send(bytes)) => SessionStep::Transmit(bytes),
        // manually trigger reconnect
        SessionInput::Perform(KBAction::Reconnect) => SessionStep::Finish(Ok(())),
        // the application is likely shutting down
        SessionInput::MainThreadDropped => SessionStep::Finish(
            Err(SessionError::MainThreadDropped),
        ),
    }
}

/// What the connection thread does once a session has ended.
#[derive(Debug, Clone)]
pub enum AfterSession {
    /// The application is gone: stop the thread.
    Stop,
    /// Report `event` to the application and connect again, after a pause
    /// if `pause` holds.
    Retry { event: KBEvent, pause: bool },
}

/// `next` is what follows a session that ended with `res`.
pub open spec fn is_after_session(res: Result<(), SessionError>, next: AfterSession) -> bool {
    match res {
        Err(SessionError::MainThreadDropped) => next is Stop,
        Ok(()) => next matches AfterSession::Retry { event: KBEvent::ConnectionLost(text), pause }
            && text@ == refresh_text() && !pause,
        Err(SessionError::ConnectionLost(msg)) => next matches AfterSession::Retry {
            event: KBEvent::ConnectionLost(text),
            pause,
        } && text@ == msg@ && pause,
    }
}

/// Decides, after a session, whether to stop or to report and reconnect.
pub fn after_session(res: Result<(), SessionError>) -> (next: AfterSession)
    ensures
        is_after_session(res, next),
{
    match res {
        // The main application closed the receiver channel, stop the thread
        Err(SessionError::MainThreadDropped) => AfterSession::Stop,
        // `Ok(())` stands for a user-requested refresh
        Ok(()) => AfterSession::Retry {
            event: KBEvent::ConnectionLost("user-triggered refresh".to_owned()),
            pause: false,
        },
        // keyboard disconnected / failed to connect: report it, wait a bit and retry
        Err(SessionError::ConnectionLost(msg)) => AfterSession::Retry {
            event: KBEvent::ConnectionLost(msg),
            pause: true,
        },
    }
}

/// A system exclusive message that is no acknowledgement but reads as a
/// scene dump, on whatever channel, becomes the event of that dump's scene.
pub proof fn lemma_scene_dump_event(evt: SysExView, ch: u8, scene: Scene)
    requires
        Ack::spec_parse_sysex(evt) is Err,
        SceneDump::spec_parse_sysex(evt) == Ok::<SceneDump, ParseSceneDumpError>(
            SceneDump(ch, scene),
        ),
    ensures
        KBEvent::spec_from_midi_message(MidiEventView::SysEx(evt)) == Some(
            KBEvent::SceneDump(scene),
        ),
{
}

/// The scene dump of a valid scene from a keyboard on any channel 0..=15
/// becomes the event of that scene.
pub proof fn lemma_scene_dump_on_every_channel(ch: u8, scene: Scene, evt: SysExView)
    requires
        ch < 16,
        scene.is_valid(),
        evt.kind == SysExKind::Manufacturer(ManufacturerId::Id(KORG_ID)),
        evt.data == scene_dump_data(ch, scene),
    ensures
        KBEvent::spec_from_midi_message(MidiEventView::SysEx(evt)) == Some(
            KBEvent::SceneDump(scene),
        ),
{
    lemma_scene_dump_round_trip(ch, scene, evt);
    assert(evt.data.len() == 83);
}

} // verus!
