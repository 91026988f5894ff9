//! Backend game logic for the terminal Pong game, with its contracts.
//!
//! * [`protocol`]: the messages exchanged between the backend and the
//!   frontend, and the score.
//! * [`rng`]: the xorshift generator behind serve directions and angles.
//! * [`rules`]: the match state machine (phases, serving pause, scoring,
//!   winning, restarts) that tells the physics what to simulate.
//! * [`ai`]: the discrete part of the AI opponent (difficulty profiles,
//!   the reaction-delay line, approach legs).
//! * [`input`]: the key-hold model that infers releases from auto-repeat.
//! * [`menu`]: the start menu's selection state machine and row text.
//! * [`layout`]: cell geometry of the court, the menu and the overlays.
//! * [`frontend`]: what a key, a frame or a snapshot makes the frontend
//!   do (screens, forwarded events, the score flash, beep pitches).
//! * [`snapshots`]: merging the snapshots a lagging frontend skips,
//!   without losing their events.
pub mod ai;
pub mod frontend;
pub mod input;
pub mod layout;
pub mod menu;
pub mod protocol;
pub mod rng;
pub mod rules;
pub mod snapshots;

pub use input::{Action, InputState, Key, KeyCode, KeyKind};
pub use menu::{Menu, MenuAction};
pub use protocol::{
    BackendClosed, BallSpeedMode, Difficulty, Direction, GameEvent, GameOptions, GamePhase,
    InputEvent, Opponent, Score, Side, SERVE_PAUSE_TICKS, TICKS_PER_SEC, WIN_SCORE,
};
pub use rules::{MatchState, TickPlan};
