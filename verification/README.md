# pong-core

A terminal Pong game whose rules, input model and menu are a library
verified with Verus.

- `src/`: the verified library.
  - `protocol`: messages between backend and frontend, the score.
  - `rng`: the xorshift generator (its state never becomes zero).
  - `rules`: the match state machine (waiting, serving countdown, play,
    game over), scoring, restarts, serve directions and angles, events.
  - `ai`: difficulty profiles, the reaction-delay line, approach legs.
  - `input`: the key-hold model that infers releases from auto-repeat.
  - `menu`: the start menu and its row text.
  - `layout`: court, menu and overlay placement in terminal cells.
  - `frontend`: what a key, a frame or a snapshot makes the frontend do.
  - `snapshots`: merging skipped snapshots without losing their events.
- `tests/`: tests of the library.
- `app/`: the program: terminal I/O (crossterm, ratatui), sound (rodio),
  the backend thread, and the floating-point physics and drawing, all
  driven by the library.
