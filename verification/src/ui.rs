//! The application's state machine: what each message does to the state,
//! which commands go to the keyboard, and what the window shows.
use vstd::prelude::*;
use crate::nk2::eventloop::{KBAction, KBEvent};
use crate::nk2::msg::{
    dump_scene_request, korg_sysex, load_scene_data, load_scene_request, save_scene_request,
    scene_command_data, Ack, DUMP_REQUEST, WRITE_REQUEST,
};
use crate::nk2::scene::{Scene, VelocityCurve};

verus! {

/// Number of MIDI notes, and of entries in the pressed-keys table.
pub const NUM_NOTES: usize = 128;

/// Number of MIDI channels; a scene dump is requested on each of them.
pub const NUM_CHANNELS: u8 = 16;

/// The note that the keyboard display centers on while no scene is known.
pub const DEFAULT_ROOT_NOTE: u8 = 60;

/// Korg numbers notes so that middle C is 64, where MIDI has 60.
pub const TRANSPOSE_OFFSET: u8 = 4;

/// The drop-down menus of the toolbar.
#[derive(Debug, Clone, Copy, PartialEq, Eq, Structural)]
pub enum Menu {
    Channel,
}

/// A message that the user can dismiss.
#[derive(Debug, Clone, Copy, PartialEq, Eq, Structural)]
pub enum Popup {
    /// The keyboard reported an error loading a scene, on this channel.
    LoadError(u8),
    /// The keyboard reported an error writing a scene, on this channel.
    WriteError(u8),
}

/// The main state with the interactable UI etc
#[derive(Debug)]
pub struct ConnectedState {
    pub scene: Scene,
    pub pressed_keys: [bool; 128],
    pub popup: Option<Popup>,
    pub active_menu: Option<Menu>,
}

/// The initial state, and the state after losing the keyboard.
#[derive(Debug)]
pub struct DisconnectedState {
    pub message: String,
}

#[derive(Debug)]
pub enum State {
    /// The main state with the interactable UI etc
    Connected(ConnectedState),
    /// The initial state.
    Disconnected(DisconnectedState),
    /// Transition state between 'disconnected' and 'connected'
    FetchingScene,
}

/// The application once it runs.
#[derive(Debug)]
pub struct App {
    pub state: State,
    pub keyboard_size: u8,
}

#[derive(Debug, Clone)]
pub enum Message {
    /// The connection thread is up and its command sender is known.
    Initialized,
    /// Emitted if the 'fetching' state doesn't get a response from keyboard within some time
    FetchTimeout,
    KBEvent(KBEvent),
    /// A key is clicked
    RootNoteChanged(u8),
    // toolbar actions:
    ReconnectRequested,
    DismissPopup,
    SaveScene,
    ZoomIn,
    ZoomOut,
    SetChannel(u8),
    SetVelocityCurve(VelocityCurve),
    ToggleMenu(Menu),
}

/// What the application must do outside the state.
#[derive(Debug)]
pub enum Effect {
    /// Hand this action to the connection thread.
    Command(KBAction),
    /// Start the timer that ends a scene fetch with `Message::FetchTimeout`.
    StartFetchTimeout,
}

// ----- the model that the contracts speak of -----

pub struct ConnectedView {
    pub scene: Scene,
    pub pressed: Seq<bool>,
    pub popup: Option<Popup>,
    pub menu: Option<Menu>,
}

pub enum StateView {
    Connected(ConnectedView),
    Disconnected(Seq<char>),
    FetchingScene,
}

pub struct AppView {
    pub state: StateView,
    pub keyboard_size: u8,
}

pub enum EffectView {
    Send(Seq<u8>),
    Reconnect,
    StartFetchTimeout,
}

impl View for State {
    type V = StateView;

    open spec fn view(&self) -> StateView {
        match self {
            State::Connected(c) => StateView::Connected(
                ConnectedView {
                    scene: c.scene,
                    pressed: c.pressed_keys@,
                    popup: c.popup,
                    menu: c.active_menu,
                },
            ),
            State::Disconnected(d) => StateView::Disconnected(d.message@),
            State::FetchingScene => StateView::FetchingScene,
        }
    }
}

impl View for App {
    type V = AppView;

    open spec fn view(&self) -> AppView {
        AppView { state: self.state@, keyboard_size: self.keyboard_size }
    }
}

impl View for Effect {
    type V = EffectView;

    open spec fn view(&self) -> EffectView {
        match self {
            Effect::Command(KBAction::Send(bytes)) => EffectView::Send(bytes@),
            Effect::Command(KBAction::Reconnect) => EffectView::Reconnect,
            Effect::StartFetchTimeout => EffectView::StartFetchTimeout,
        }
    }
}

/// The views of a list of effects.
pub open spec fn effects_view(effects: Seq<Effect>) -> Seq<EffectView> {
    effects.map_values(|e: Effect| e@)
}

// ----- zoom -----

/// The keyboard zoom levels: the width of a white key, in logical pixels.
pub open spec fn zoom_levels() -> Seq<u8> {
    seq![20u8, 24, 28, 34, 40]
}

pub open spec fn is_zoom_level(size: u8) -> bool {
    zoom_levels().contains(size)
}

/// The smallest zoom level above `size`, or the largest level if none is.
pub open spec fn spec_zoom_in(size: u8) -> u8 {
    if size < 20 {
        20
    } else if size < 24 {
        24
    } else if size < 28 {
        28
    } else if size < 34 {
        34
    } else {
        40
    }
}

/// The largest zoom level below `size`, or the smallest level if none is.
pub open spec fn spec_zoom_out(size: u8) -> u8 {
    if size > 40 {
        40
    } else if size > 34 {
        34
    } else if size > 28 {
        28
    } else if size > 24 {
        24
    } else {
        20
    }
}

pub fn zoom_in(size: u8) -> (res: u8)
    ensures
        res == spec_zoom_in(size),
{
    let levels: [u8; 5] = [20, 24, 28, 34, 40];
    let mut i: usize = 0;
    while i < 5
        invariant
            i <= 5,
            levels@ == zoom_levels(),
            forall|j: int| 0 <= j < i ==> levels@[j] <= size,
        decreases 5 - i,
    {
        if levels[i] > size {
            assert(levels@[0] == 20 && levels@[1] == 24 && levels@[2] == 28 && levels@[3] == 34);
            return levels[i];
        }
        i = i + 1;
    }
    levels[4]
}

pub fn zoom_out(size: u8) -> (res: u8)
    ensures
        res == spec_zoom_out(size),
{
    let levels: [u8; 5] = [20, 24, 28, 34, 40];
    let mut i: usize = 5;
    while i > 0
        invariant
            i <= 5,
            levels@ == zoom_levels(),
            forall|j: int| i <= j < 5 ==> levels@[j] >= size,
        decreases i,
    {
        if levels[i - 1] < size {
            assert(levels@[1] == 24 && levels@[2] == 28 && levels@[3] == 34 && levels@[4] == 40);
            return levels[i - 1];
        }
        i = i - 1;
    }
    levels[0]
}

// ----- the state machine -----

/// The pressed-keys table with no key pressed.
pub open spec fn no_keys_pressed() -> Seq<bool> {
    Seq::new(128, |i: int| false)
}

/// The effects of a newly established connection: ask for the scene on
/// every channel, then start the fetch timer.
pub open spec fn connect_effects() -> Seq<EffectView> {
    Seq::new(
        16,
        |i: int| EffectView::Send(korg_sysex(scene_command_data(i as u8, DUMP_REQUEST))),
    ).push(EffectView::StartFetchTimeout)
}

/// The text of the disconnected state right after start-up.
pub open spec fn just_started_text() -> Seq<char> {
    "just started"@
}

/// The text of the disconnected state after a scene fetch timed out.
pub open spec fn fetch_timed_out_text() -> Seq<char> {
    "fetch timed out"@
}

/// The message cannot arrive in the state `v`: the application panics on it.
pub open spec fn is_unexpected(v: AppView, msg: Message) -> bool {
    match v.state {
        StateView::Connected(c) => match msg {
            Message::KBEvent(KBEvent::ConnectionEstablished) => true,
            Message::Initialized => true,
            Message::FetchTimeout => true,
            // the pressed-keys table has one entry per MIDI note
            Message::KBEvent(KBEvent::NoteOn(note)) => note >= 128,
            Message::KBEvent(KBEvent::NoteOff(note)) => note >= 128,
            // the new transpose must fit in a byte
            Message::RootNoteChanged(root) => root + TRANSPOSE_OFFSET > u8::MAX,
            _ => false,
        },
        _ => false,
    }
}

/// The state after `msg` arrives in state `v`, and the effects it has.
pub open spec fn spec_update(v: AppView, msg: Message) -> (AppView, Seq<EffectView>) {
    let none = Seq::<EffectView>::empty();
    match v.state {
        StateView::Disconnected(_) => match msg {
            Message::KBEvent(KBEvent::ConnectionEstablished) => (
                AppView { state: StateView::FetchingScene, ..v },
                connect_effects(),
            ),
            Message::KBEvent(KBEvent::ConnectionLost(text)) => (
                AppView { state: StateView::Disconnected(text@), ..v },
                none,
            ),
            _ => (v, none),
        },
        StateView::FetchingScene => match msg {
            Message::KBEvent(KBEvent::SceneDump(scene)) => (
                AppView {
                    state: StateView::Connected(
                        ConnectedView {
                            scene,
                            pressed: no_keys_pressed(),
                            popup: None,
                            menu: None,
                        },
                    ),
                    ..v
                },
                none,
            ),
            Message::FetchTimeout => (
                AppView { state: StateView::Disconnected(fetch_timed_out_text()), ..v },
                none,
            ),
            Message::KBEvent(KBEvent::ConnectionLost(text)) => (
                AppView { state: StateView::Disconnected(text@), ..v },
                none,
            ),
            _ => (v, none),
        },
        StateView::Connected(c) => {
            let connected = |c2: ConnectedView| AppView { state: StateView::Connected(c2), ..v };
            match msg {
                Message::KBEvent(KBEvent::ConnectionLost(text)) => (
                    AppView { state: StateView::Disconnected(text@), ..v },
                    none,
                ),
                Message::KBEvent(KBEvent::NoteOn(note)) => (
                    connected(ConnectedView { pressed: c.pressed.update(note as int, true), ..c }),
                    none,
                ),
                Message::KBEvent(KBEvent::NoteOff(note)) => (
                    connected(ConnectedView { pressed: c.pressed.update(note as int, false), ..c }),
                    none,
                ),
                Message::KBEvent(KBEvent::AllNotesOff) => (
                    connected(ConnectedView { pressed: no_keys_pressed(), ..c }),
                    none,
                ),
                Message::KBEvent(KBEvent::SceneDump(scene)) => (
                    connected(ConnectedView { scene, ..c }),
                    none,
                ),
                Message::KBEvent(KBEvent::Ack(Ack::LoadError(ch))) => (
                    connected(ConnectedView { popup: Some(Popup::LoadError(ch)), ..c }),
                    seq![EffectView::Send(korg_sysex(scene_command_data(ch, DUMP_REQUEST)))],
                ),
                Message::KBEvent(KBEvent::Ack(Ack::WriteError(ch))) => (
                    connected(ConnectedView { popup: Some(Popup::WriteError(ch)), ..c }),
                    seq![EffectView::Send(korg_sysex(scene_command_data(ch, DUMP_REQUEST)))],
                ),
                Message::KBEvent(KBEvent::Ack(_)) => (v, none),
                Message::RootNoteChanged(root) => {
                    let scene = Scene { transpose: (root + TRANSPOSE_OFFSET) as u8, ..c.scene };
                    (
                        connected(ConnectedView { scene, ..c }),
                        seq![
                            EffectView::Send(
                                korg_sysex(load_scene_data(scene.midi_channel, scene)),
                            ),
                        ],
                    )
                },
                Message::ReconnectRequested => (v, seq![EffectView::Reconnect]),
                Message::DismissPopup => (connected(ConnectedView { popup: None, ..c }), none),
                Message::SaveScene => (
                    v,
                    seq![
                        EffectView::Send(
                            korg_sysex(scene_command_data(c.scene.midi_channel, WRITE_REQUEST)),
                        ),
                    ],
                ),
                Message::ZoomIn => (AppView { keyboard_size: spec_zoom_in(v.keyboard_size), ..v }, none),
                Message::ZoomOut => (
                    AppView { keyboard_size: spec_zoom_out(v.keyboard_size), ..v },
                    none,
                ),
                Message::SetChannel(ch) => {
                    let scene = Scene { midi_channel: ch, ..c.scene };
                    (
                        connected(ConnectedView { scene, menu: None, ..c }),
                        seq![
                            EffectView::Send(
                                korg_sysex(load_scene_data(c.scene.midi_channel, scene)),
                            ),
                        ],
                    )
                },
                Message::SetVelocityCurve(curve) => {
                    let scene = Scene { velocity_curve: curve, ..c.scene };
                    (
                        connected(ConnectedView { scene, ..c }),
                        seq![
                            EffectView::Send(
                                korg_sysex(load_scene_data(scene.midi_channel, scene)),
                            ),
                        ],
                    )
                },
                Message::ToggleMenu(menu) => (
                    connected(
                        ConnectedView {
                            menu: if c.menu == Some(menu) {
                                None
                            } else {
                                Some(menu)
                            },
                            ..c
                        },
                    ),
                    none,
                ),
                // unexpected messages (see `is_unexpected`)
                _ => (v, none),
            }
        },
    }
}

fn send(bytes: Vec<u8>) -> (e: Effect)
    ensures
        e@ == EffectView::Send(bytes@),
{
    Effect::Command(KBAction::Send(bytes))
}

impl App {
    /// The application right after the connection thread started.
    pub fn new() -> (app: App)
        ensures
            app@ == (AppView {
                state: StateView::Disconnected(just_started_text()),
                keyboard_size: 20,
            }),
    {
        App {
            state: State::Disconnected(DisconnectedState { message: "just started".to_owned() }),
            keyboard_size: 20,
        }
    }

    pub open spec fn spec_is_connected(&self) -> bool {
        self.state is Connected
    }

    pub fn is_connected(&self) -> (res: bool)
        ensures
            res == self.spec_is_connected(),
    {
        match self.state {
            State::Connected(_) => true,
            _ => false,
        }
    }

    /// Tells whether `msg` can arrive now (see `is_unexpected`).
    pub fn accepts(&self, msg: &Message) -> (res: bool)
        ensures
            res == !is_unexpected(self@, *msg),
    {
        match &self.state {
            State::Connected(_) => match msg {
                Message::KBEvent(KBEvent::ConnectionEstablished) => false,
                Message::Initialized => false,
                Message::FetchTimeout => false,
                Message::KBEvent(KBEvent::NoteOn(note)) => *note < 128,
                Message::KBEvent(KBEvent::NoteOff(note)) => *note < 128,
                Message::RootNoteChanged(root) => *root <= u8::MAX - TRANSPOSE_OFFSET,
                _ => true,
            },
            _ => true,
        }
    }

    /// Handles one message: changes the state and returns what must be done
    /// outside it, in order.
    pub fn update(&mut self, msg: Message) -> (effects: Vec<Effect>)
        requires
            !is_unexpected(old(self)@, msg),
        ensures
            final(self)@ == spec_update(old(self)@, msg).0,
            effects_view(effects@) == spec_update(old(self)@, msg).1,
            old(self)@.state is Connected && (msg matches Message::KBEvent(KBEvent::Ack(ack)) && (
            ack is LoadCompleted || ack is WriteCompleted)) ==> final(self)@ == old(self)@
                && effects@.len() == 0,
            old(self)@.state is Connected ==> (msg matches Message::KBEvent(
                KBEvent::Ack(Ack::LoadError(ch)),
            ) ==> final(self)@.state->Connected_0.popup == Some(Popup::LoadError(ch))),
            old(self)@.state is Connected ==> (msg matches Message::KBEvent(
                KBEvent::Ack(Ack::WriteError(ch)),
            ) ==> final(self)@.state->Connected_0.popup == Some(Popup::WriteError(ch))),
    {
        let ghost v = self@;
        let mut state = State::FetchingScene;
        core::mem::swap(&mut state, &mut self.state);
        let mut effects: Vec<Effect> = Vec::new();
        match state {
            // disconnected from keyboard
            State::Disconnected(d) => match msg {
                Message::KBEvent(KBEvent::ConnectionEstablished) => {
                    // send request to fetch scene data
                    let mut i: u8 = 0;
                    while i < NUM_CHANNELS
                        invariant
                            i <= 16,
                            effects_view(effects@) =~= Seq::new(
                                i as nat,
                                |j: int|
                                    EffectView::Send(
                                        korg_sysex(scene_command_data(j as u8, DUMP_REQUEST)),
                                    ),
                            ),
                        decreases 16 - i,
                    {
                        let e = send(dump_scene_request(i));
                        let ghost prev = effects@;
                        effects.push(e);
                        assert(effects_view(effects@) =~= effects_view(prev).push(e@));
                        i = i + 1;
                    }
                    // time out the fetch if the keyboard does not answer
                    effects.push(Effect::StartFetchTimeout);
                    self.state = State::FetchingScene;
                    assert(effects_view(effects@) =~= connect_effects());
                },
                Message::KBEvent(KBEvent::ConnectionLost(text)) => {
                    self.state = State::Disconnected(DisconnectedState { message: text });
                },
                _ => {
                    // unexpected while disconnected: ignored
                    self.state = State::Disconnected(d);
                },
            },
            // established connection, get some initial data
            State::FetchingScene => match msg {
                Message::KBEvent(KBEvent::SceneDump(scene)) => {
                    self.state = State::Connected(
                        ConnectedState {
                            scene,
                            pressed_keys: [false; 128],
                            popup: None,
                            active_menu: None,
                        },
                    );
                    assert(self.state@->Connected_0.pressed =~= no_keys_pressed());
                },
                Message::FetchTimeout => {
                    self.state = State::Disconnected(
                        DisconnectedState { message: "fetch timed out".to_owned() },
                    );
                },
                Message::KBEvent(KBEvent::ConnectionLost(text)) => {
                    self.state = State::Disconnected(DisconnectedState { message: text });
                },
                _ => {
                    // unexpected while fetching: ignored
                },
            },
            // connected to keyboard
            State::Connected(c) => {
                let mut c = c;
                match msg {
                    Message::KBEvent(KBEvent::ConnectionLost(text)) => {
                        self.state = State::Disconnected(DisconnectedState { message: text });
                        return effects;
                    },
                    Message::KBEvent(KBEvent::NoteOn(note)) => {
                        c.pressed_keys[note as usize] = true;
                    },
                    Message::KBEvent(KBEvent::NoteOff(note)) => {
                        c.pressed_keys[note as usize] = false;
                    },
                    Message::KBEvent(KBEvent::AllNotesOff) => {
                        c.pressed_keys = [false; 128];
                        assert(c.pressed_keys@ =~= no_keys_pressed());
                    },
                    Message::KBEvent(KBEvent::SceneDump(scene)) => {
                        c.scene = scene;
                    },
                    Message::KBEvent(KBEvent::Ack(ack)) => match ack {
                        Ack::LoadCompleted(_ch) => {},
                        Ack::WriteCompleted(_ch) => {},
                        Ack::LoadError(ch) => {
                            c.popup = Some(Popup::LoadError(ch));
                            effects.push(send(dump_scene_request(ch)));
                        },
                        Ack::WriteError(ch) => {
                            c.popup = Some(Popup::WriteError(ch));
                            effects.push(send(dump_scene_request(ch)));
                        },
                    },
                    Message::RootNoteChanged(new_root) => {
                        // middle C is 60 in MIDI, but 64 in korg
                        c.scene.transpose = new_root + TRANSPOSE_OFFSET;
                        effects.push(send(load_scene_request(c.scene.midi_channel, &c.scene)));
                    },
                    Message::ReconnectRequested => {
                        effects.push(Effect::Command(KBAction::Reconnect));
                    },
                    Message::DismissPopup => {
                        c.popup = None;
                    },
                    Message::SaveScene => {
                        effects.push(send(save_scene_request(c.scene.midi_channel)));
                    },
                    Message::ZoomIn => {
                        self.keyboard_size = zoom_in(self.keyboard_size);
                    },
                    Message::ZoomOut => {
                        self.keyboard_size = zoom_out(self.keyboard_size);
                    },
                    Message::SetChannel(ch) => {
                        c.active_menu = None;
                        let old_ch = c.scene.midi_channel;
                        c.scene.midi_channel = ch;
                        effects.push(send(load_scene_request(old_ch, &c.scene)));
                    },
                    Message::SetVelocityCurve(curve) => {
                        c.scene.velocity_curve = curve;
                        effects.push(send(load_scene_request(c.scene.midi_channel, &c.scene)));
                    },
                    Message::ToggleMenu(menu) => {
                        let is_same_menu = match c.active_menu {
                            Some(m) => m == menu,
                            None => false,
                        };
                        if is_same_menu {
                            c.active_menu = None;
                        } else {
                            c.active_menu = Some(menu);
                        }
                    },
                    // excluded by `is_unexpected`
                    Message::KBEvent(KBEvent::ConnectionEstablished) => {},
                    Message::Initialized => {},
                    Message::FetchTimeout => {},
                }
                self.state = State::Connected(c);
            },
        }
        effects
    }
}


/// A message shown over the window.
#[derive(Debug, Clone, Copy, PartialEq, Eq, Structural)]
pub enum Notice {
    /// "Connecting to keyboard..."
    Connecting,
    /// "Fetching scene data..."
    FetchingScene,
    /// A popup that the user can dismiss.
    Popup(Popup),
}

impl Notice {
    pub fn is_dismissable(&self) -> (res: bool)
        ensures
            res == (self is Popup),
    {
        match self {
            Notice::Popup(_) => true,
            _ => false,
        }
    }
}

/// The window needs a root note: while connected, the scene's transpose
/// must lie above the Korg offset.
pub open spec fn has_root_note(v: AppView) -> bool {
    v.state matches StateView::Connected(c) ==> c.scene.transpose >= TRANSPOSE_OFFSET
}

impl App {
    /// The keys shown pressed: none unless connected.
    pub fn pressed_keys(&self) -> (keys: [bool; 128])
        ensures
            keys@ == match self@.state {
                StateView::Connected(c) => c.pressed,
                _ => no_keys_pressed(),
            },
    {
        match &self.state {
            State::Connected(c) => c.pressed_keys,
            _ => {
                let keys = [false; 128];
                assert(keys@ =~= no_keys_pressed());
                keys
            },
        }
    }

    /// Tells whether the window has a root note (see `has_root_note`).
    pub fn has_root_note(&self) -> (res: bool)
        ensures
            res == has_root_note(self@),
    {
        match &self.state {
            State::Connected(c) => c.scene.transpose >= TRANSPOSE_OFFSET,
            _ => true,
        }
    }

    /// The note that the keyboard display centers on.
    pub fn root_note(&self) -> (note: u8)
        requires
            has_root_note(self@),
        ensures
            note == match self@.state {
                StateView::Connected(c) => (c.scene.transpose - TRANSPOSE_OFFSET) as u8,
                _ => DEFAULT_ROOT_NOTE,
            },
    {
        match &self.state {
            State::Connected(c) => c.scene.transpose - TRANSPOSE_OFFSET,
            _ => DEFAULT_ROOT_NOTE,
        }
    }

    /// The channel and velocity curve that the toolbar shows.
    pub fn toolbar_settings(&self) -> (res: (u8, VelocityCurve))
        ensures
            res == match self@.state {
                StateView::Connected(c) => (c.scene.midi_channel, c.scene.velocity_curve),
                _ => (0u8, VelocityCurve::Normal),
            },
    {
        match &self.state {
            State::Connected(c) => (c.scene.midi_channel, c.scene.velocity_curve),
            _ => (0, VelocityCurve::Normal),
        }
    }

    /// The open menu, with the channel that it shows as selected.
    pub fn open_menu(&self) -> (res: Option<(Menu, u8)>)
        ensures
            res == match self@.state {
                StateView::Connected(c) => match c.menu {
                    Some(m) => Some((m, c.scene.midi_channel)),
                    None => None,
                },
                _ => None,
            },
    {
        match &self.state {
            State::Connected(c) => match c.active_menu {
                Some(m) => Some((m, c.scene.midi_channel)),
                None => None,
            },
            _ => None,
        }
    }

    /// The message shown over the window, if any.
    pub fn notice(&self) -> (res: Option<Notice>)
        ensures
            res == match self@.state {
                StateView::Connected(c) => match c.popup {
                    Some(p) => Some(Notice::Popup(p)),
                    None => None,
                },
                StateView::Disconnected(_) => Some(Notice::Connecting),
                StateView::FetchingScene => Some(Notice::FetchingScene),
            },
    {
        match &self.state {
            State::Connected(c) => match c.popup {
                Some(p) => Some(Notice::Popup(p)),
                None => None,
            },
            State::Disconnected(_) => Some(Notice::Connecting),
            State::FetchingScene => Some(Notice::FetchingScene),
        }
    }
}


// ----- laws -----

/// Zooming in or out always lands on a zoom level.
pub proof fn lemma_zoom_stays_on_levels(size: u8)
    ensures
        is_zoom_level(spec_zoom_in(size)),
        is_zoom_level(spec_zoom_out(size)),
{
    assert(zoom_levels()[0] == 20 && zoom_levels()[1] == 24 && zoom_levels()[2] == 28
        && zoom_levels()[3] == 34 && zoom_levels()[4] == 40);
}

/// From a zoom level, zooming out undoes zooming in (below the largest
/// level), and zooming in undoes zooming out (above the smallest level).
pub proof fn lemma_zoom_undo(size: u8)
    requires
        is_zoom_level(size),
    ensures
        size != 40 ==> spec_zoom_out(spec_zoom_in(size)) == size,
        size != 20 ==> spec_zoom_in(spec_zoom_out(size)) == size,
        size == 40 ==> spec_zoom_in(size) == size,
        size == 20 ==> spec_zoom_out(size) == size,
{
    let i = choose|i: int| 0 <= i < 5 && zoom_levels()[i] == size;
    assert(zoom_levels()[0] == 20 && zoom_levels()[1] == 24 && zoom_levels()[2] == 28
        && zoom_levels()[3] == 34 && zoom_levels()[4] == 40);
}

/// Every message keeps the keyboard size on a zoom level.
pub proof fn lemma_update_keeps_zoom_level(v: AppView, msg: Message)
    requires
        is_zoom_level(v.keyboard_size),
    ensures
        is_zoom_level(spec_update(v, msg).0.keyboard_size),
{
    lemma_zoom_stays_on_levels(v.keyboard_size);
}

/// Losing the connection, in any state, leads to the disconnected state
/// with the reason given, and to nothing else.
pub proof fn lemma_connection_lost(v: AppView, text: String)
    ensures
        spec_update(v, Message::KBEvent(KBEvent::ConnectionLost(text))) == (
            AppView { state: StateView::Disconnected(text@), ..v },
            Seq::<EffectView>::empty(),
        ),
{
}

/// While disconnected, only connection events have any effect.
pub proof fn lemma_disconnected_ignores(v: AppView, msg: Message)
    requires
        v.state is Disconnected,
        !(msg matches Message::KBEvent(KBEvent::ConnectionEstablished)),
        !(msg matches Message::KBEvent(KBEvent::ConnectionLost(_))),
    ensures
        spec_update(v, msg) == (v, Seq::<EffectView>::empty()),
{
}

/// While fetching the scene, the first scene dump connects, with no key
/// pressed, no popup and no menu open.
pub proof fn lemma_scene_dump_connects(v: AppView, scene: Scene)
    requires
        v.state is FetchingScene,
    ensures
        spec_update(v, Message::KBEvent(KBEvent::SceneDump(scene))).0 == (AppView {
            state: StateView::Connected(
                ConnectedView { scene, pressed: no_keys_pressed(), popup: None, menu: None },
            ),
            ..v
        }),
{
}

/// Opening a menu twice in a row leaves the application as it was.
pub proof fn lemma_toggle_menu_twice(v: AppView, menu: Menu)
    requires
        v.state is Connected,
    ensures
        spec_update(spec_update(v, Message::ToggleMenu(menu)).0, Message::ToggleMenu(menu)).0
            == v,
        spec_update(v, Message::ToggleMenu(menu)).1 == Seq::<EffectView>::empty(),
{
    let c = v.state->Connected_0;
    let v1 = spec_update(v, Message::ToggleMenu(menu)).0;
    let c1 = v1.state->Connected_0;
    let v2 = spec_update(v1, Message::ToggleMenu(menu)).0;
    let c2 = v2.state->Connected_0;
    assert(c2.menu == c.menu);
    assert(c2 == c);
}

/// Pressing and releasing a key leaves it released and every other key as
/// it was.
pub proof fn lemma_note_on_then_off(v: AppView, note: u8)
    requires
        v.state is Connected,
        v.state->Connected_0.pressed.len() == NUM_NOTES,
        note < 128,
    ensures
        ({
            let v1 = spec_update(v, Message::KBEvent(KBEvent::NoteOn(note))).0;
            let v2 = spec_update(v1, Message::KBEvent(KBEvent::NoteOff(note))).0;
            v2 == AppView {
                state: StateView::Connected(
                    ConnectedView {
                        pressed: v.state->Connected_0.pressed.update(note as int, false),
                        ..v.state->Connected_0
                    },
                ),
                ..v
            }
        }),
{
    let c = v.state->Connected_0;
    assert(c.pressed.update(note as int, true).update(note as int, false) =~= c.pressed.update(
        note as int,
        false,
    ));
}

/// Every change that the user makes to the scene is sent to the keyboard,
/// at once and alone, as a load request of the new scene on the channel that
/// the keyboard had until then.
pub proof fn lemma_scene_changes_are_sent(v: AppView, msg: Message)
    requires
        v.state is Connected,
        !is_unexpected(v, msg),
        msg is RootNoteChanged || msg is SetChannel || msg is SetVelocityCurve,
    ensures
        ({
            let (v2, effects) = spec_update(v, msg);
            &&& v2.state is Connected
            &&& effects == seq![
                EffectView::Send(
                    korg_sysex(
                        load_scene_data(
                            v.state->Connected_0.scene.midi_channel,
                            v2.state->Connected_0.scene,
                        ),
                    ),
                ),
            ]
        }),
{
}

/// A keyboard's report that a load or write completed changes nothing and
/// asks for nothing: no popup appears.
pub proof fn lemma_completed_ack_changes_nothing(v: AppView, ack: Ack)
    requires
        v.state is Connected,
        ack is LoadCompleted || ack is WriteCompleted,
    ensures
        spec_update(v, Message::KBEvent(KBEvent::Ack(ack))) == (v, Seq::<EffectView>::empty()),
{
}

/// Only a reported error raises a popup: the error and its channel, along
/// with a fresh scene dump request on that channel.
pub proof fn lemma_ack_error_raises_popup(v: AppView, ack: Ack)
    requires
        v.state is Connected,
        ack is LoadError || ack is WriteError,
    ensures
        ({
            let (v2, effects) = spec_update(v, Message::KBEvent(KBEvent::Ack(ack)));
            let popup = match ack {
                Ack::LoadError(ch) => Popup::LoadError(ch),
                Ack::WriteError(ch) => Popup::WriteError(ch),
                _ => Popup::LoadError(0),
            };
            let ch = match ack {
                Ack::LoadError(ch) => ch,
                Ack::WriteError(ch) => ch,
                _ => 0,
            };
            &&& v2 == AppView {
                state: StateView::Connected(
                    ConnectedView { popup: Some(popup), ..v.state->Connected_0 },
                ),
                ..v
            }
            &&& effects == seq![EffectView::Send(korg_sysex(scene_command_data(ch, DUMP_REQUEST)))]
        }),
{
}

} // verus!
