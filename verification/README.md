# desktop_pet

A desktop companion pet whose core logic is written in Verus and proved
against its contracts.

## Layout

- `src/` — the verified library:
  - `types.rs` — pet states, vitals, telemetry events, frames to render;
  - `fsm.rs` — the behavioural state machine and its laws;
  - `vitals.rs` — how the vitals drift and respond to clicks, and its laws;
  - `physics.rs` — walking, jumping and the bounding box, and their laws;
  - `cpu.rs`, `battery.rs`, `git.rs` — telemetry parsed from `/proc/stat`,
    the power-supply directory and a repository's reflog, and which
    repositories a file-system change concerns;
  - `dialogue.rs` — canned lines and the language-model prompt and reply;
  - `dashboard.rs` — the status dashboard's text;
  - `sprite.rs` — sprite strips (PNG via `png`, frames via `tiny-skia`) and
    the integer geometry of drawing;
  - `layer_surface.rs`, `config.rs` — the layer surface and daemon settings;
  - `emit.rs` — the events that the `emit` command's shortcuts stand for;
  - `text.rs` — whitespace, tokens, trimming, numbers and lines.
- `app/` — the programs around it: the command line, the daemons' sockets,
  SQLite persistence, D-Bus and file-system collectors, and drawing.
- `tests/` — tests of the library.

## Units

The library holds no floating point. Vitals are in millionths of a point
(0 to 100 points), positions and velocities in thousandths of a pixel,
state-machine durations in nanoseconds and vitals ticks in milliseconds.
CPU usage is the exact ratio of busy time to time passed, and is compared
with 85 % exactly. `app/wire.rs` converts to and
from the JSON forms the daemons exchange.
