# nk2view

A utility to edit parameters of the Korg nanoKEY2 keyboard: transpose by
clicking a key, change the MIDI channel and the velocity curve, zoom the
piano view, and save the current settings to the keyboard's memory.

## Layout

- `src/` is the verified library (Verus):
  - `nk2/scene.rs`: the keyboard's scene settings and their 74-byte scene
    data, both ways, with the round-trip laws.
  - `nk2/midi.rs`: what the logic reads of a MIDI message, and the two calls
    into `midi_control` (reading raw bytes, writing a manufacturer system
    exclusive message).
  - `nk2/msg.rs`: the requests sent to the keyboard and the parsing of its
    scene dumps and acknowledgements.
  - `nk2/eventloop.rs`: keyboard events, and the decisions of the connection
    thread's loop.
  - `widgets/keyboard.rs`: note arithmetic of the on-screen piano.
  - `ui.rs`: the application's state machine and what the window shows.
- `app/` is the program around it: the iced window, the drawing of the piano,
  the toolbar, the connection thread and the MIDI ports (midir).
- `tests/` runs the library on concrete values.
