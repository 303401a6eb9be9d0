# nanomiddleclick

Middle-click emulation for macOS trackpads and the Magic Mouse, as a Verus
library with a thin program around it.

## Layout

- `src/` — the verified library.
  - `config.rs`: settings, the normalisation of raw preference values and
    the one-line summary.
  - `touch.rs`: touch contacts, frames and the per-frame analysis (finger
    count, centroid of the required fingers, lone-finger position).
  - `gesture.rs`: the gesture state machine, stated as transition functions
    over `EngineState`; `gesture_laws.rs` proves properties that span its
    operations, and `gesture_history.rs` properties of whole histories of
    operations (when a press or release is rewritten, when a tap produces a
    click).
  - `daemon.rs`: the event handling that switches the engine off while an
    ignored application is in front.
  - `input.rs`: event kinds and their raw codes; `settings.rs`: the stored
    mouse-click-mode names; `cli.rs`: the command-line grammar.
  - `plist.rs`, `launch_agent.rs`: the launch agent, as a property list and
    through the `lunchd` builder.
  - `clock.rs`, `text.rs`: the few `std` primitives the library stands on.
- `app/` — the program: argument handling, logging, the native input,
  workspace and preferences shims, and `launchctl`.
- `tests/` — tests of the library.

Positions are fixed-point: `POSITION_SCALE` (one million) units span the
normalised surface, and distances use the same units. Durations in the
configuration are milliseconds; the engine's clock counts nanoseconds.
