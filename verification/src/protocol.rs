//! Message protocol between the backend and the frontend.
//!
//! The backend owns all game state; the frontend only renders it. The two
//! sides communicate exclusively through the types in this module:
//!
//! * [`InputEvent`] travels frontend -> backend over the command channel.
//! * snapshots (phase, score, positions, [`GameEvent`]s) travel backend ->
//!   frontend over the state channel.
use vstd::prelude::*;

verus! {

/// Simulation rate of the backend, in ticks per second.
pub const TICKS_PER_SEC: u32 = 60;

/// Points a player needs to win the match.
pub const WIN_SCORE: u32 = 11;

/// Pause between a point and the next serve, in ticks (one second).
pub const SERVE_PAUSE_TICKS: u16 = 60;

/// Identifies one of the two players / halves of the field.
#[derive(Debug, Clone, Copy, PartialEq, Eq, Structural)]
pub enum Side {
    Left,
    Right,
}

/// The side on the opposite end of the field.
pub open spec fn opposite_side(side: Side) -> Side {
    match side {
        Side::Left => Side::Right,
        Side::Right => Side::Left,
    }
}

impl Side {
    /// Returns the side on the opposite end of the field.
    pub fn opposite(self) -> (other: Self)
        ensures
            other == opposite_side(self),
            other != self,
    {
        match self {
            Side::Left => Side::Right,
            Side::Right => Side::Left,
        }
    }
}

/// Taking the opposite side twice gives the side back, and no side is its
/// own opposite.
pub proof fn lemma_opposite_is_an_involution(side: Side)
    ensures
        opposite_side(opposite_side(side)) == side,
        opposite_side(side) != side,
{
}

/// Vertical movement direction of a paddle.
#[derive(Debug, Clone, Copy, PartialEq, Eq, Structural)]
pub enum Direction {
    Up,
    Down,
}

/// AI difficulty tier.
#[derive(Debug, Clone, Copy, PartialEq, Eq, Structural)]
pub enum Difficulty {
    /// ~200 ms reaction, noisy target, tracks the ball's current
    /// height only, 60% paddle speed.
    Easy,
    /// ~100 ms reaction, moderate noise, linear intercept prediction
    /// (wall reflections not folded), full paddle speed.
    Normal,
    /// ~33 ms reaction, no noise, full trajectory prediction with wall
    /// reflections folded in, full paddle speed.
    Hard,
}

/// Who plays the right paddle.
#[derive(Debug, Clone, Copy, PartialEq, Eq, Structural)]
pub enum Opponent {
    /// Two humans: left plays W/S, right plays the arrow keys.
    TwoPlayer,
    /// The backend drives the right paddle.
    Ai(Difficulty),
}

/// Ball speed mode chosen at the start menu.
#[derive(Debug, Clone, Copy, PartialEq, Eq, Structural)]
pub enum BallSpeedMode {
    /// Constant 60 units/s.
    Slow,
    /// Constant 80 units/s (the default).
    Fast,
    /// Starts at 60 units/s, x1.1 per paddle hit with no cap; resets at
    /// each new round. Wall bounces never change the speed.
    Mutable,
}

/// Match configuration, sent from the start menu via
/// [`InputEvent::StartMatch`].
#[derive(Debug, Clone, Copy, PartialEq, Eq, Structural)]
pub struct GameOptions {
    pub opponent: Opponent,
    pub ball_speed: BallSpeedMode,
}

/// The default configuration: two humans, fast ball.
pub open spec fn default_options() -> GameOptions {
    GameOptions { opponent: Opponent::TwoPlayer, ball_speed: BallSpeedMode::Fast }
}

impl Default for GameOptions {
    /// Two humans, fast ball.
    fn default() -> (options: Self)
        ensures
            options == default_options(),
    {
        GameOptions { opponent: Opponent::TwoPlayer, ball_speed: BallSpeedMode::Fast }
    }
}

/// An input command sent from the frontend to the backend.
#[derive(Debug, Clone, Copy, PartialEq, Eq, Structural)]
pub enum InputEvent {
    /// Set the direction a paddle should keep moving in (`None` stops it).
    ///
    /// `held` reports whether the frontend has confirmed the key is being
    /// held (its auto-repeat stream has arrived): a confirmed hold moves
    /// at the full paddle speed, anything else at the reduced tap speed.
    /// `held` is meaningless when `direction` is `None`.
    SetPaddleDirection { side: Side, direction: Option<Direction>, held: bool },
    /// Start (or restart) a match with the given configuration. Sent when
    /// the player confirms the start menu; also accepted mid-match and
    /// after a game over: the current match is discarded either way.
    StartMatch(GameOptions),
    /// Restart the match after a game over, keeping the configuration.
    Restart,
    /// Shut the backend down.
    Shutdown,
}

/// High-level state of the match.
#[derive(Debug, Clone, Copy, PartialEq, Eq, Structural)]
pub enum GamePhase {
    /// The backend is up but no match is running: the ball parks at the
    /// center and nothing moves until a [`InputEvent::StartMatch`]
    /// arrives. Paddles can still move.
    Waiting,
    /// Waiting for the next serve: the ball waits at the center and will
    /// fly toward `toward` when `ticks_left` reaches zero. Paddles can
    /// still move while serving.
    Serving {
        /// Side the ball will fly toward (the player who just lost).
        toward: Side,
        /// Ticks until the serve, at [`TICKS_PER_SEC`] ticks per second.
        ticks_left: u16,
    },
    /// The ball is in play.
    Playing,
    /// Someone reached the winning score.
    GameOver { winner: Side },
}

/// Current score of both players.
#[derive(Debug, Clone, Copy, PartialEq, Eq, Structural)]
pub struct Score {
    pub left: u32,
    pub right: u32,
}

/// A discrete thing that happened during a tick, reported to the
/// frontend for presentation-layer feedback (e.g. sound).
#[derive(Debug, Clone, Copy, PartialEq, Eq, Structural)]
pub enum GameEvent {
    /// The ball bounced off a paddle.
    PaddleHit,
    /// A point was scored and the round ended (the serving pause
    /// follows). Not emitted for the match-deciding point: `GameOver`
    /// replaces it so the two tones never sound together.
    PointScored,
    /// The match ended: someone reached the winning score.
    GameOver,
}

/// The points of `side` in `score`.
pub open spec fn points_of(score: Score, side: Side) -> u32 {
    match side {
        Side::Left => score.left,
        Side::Right => score.right,
    }
}

/// `score` with one more point for `side`.
pub open spec fn score_after_point(score: Score, side: Side) -> Score {
    match side {
        Side::Left => Score { left: (score.left + 1) as u32, right: score.right },
        Side::Right => Score { left: score.left, right: (score.right + 1) as u32 },
    }
}

/// The empty score, 0 : 0.
pub open spec fn zero_score() -> Score {
    Score { left: 0, right: 0 }
}

impl Default for Score {
    /// 0 : 0.
    fn default() -> (score: Self)
        ensures
            score == zero_score(),
    {
        Score { left: 0, right: 0 }
    }
}

impl Score {
    /// Records one point for `side`.
    pub fn record(&mut self, side: Side)
        requires
            points_of(*old(self), side) < u32::MAX,
        ensures
            *final(self) == score_after_point(*old(self), side),
    {
        match side {
            Side::Left => self.left = self.left + 1,
            Side::Right => self.right = self.right + 1,
        }
    }
}

/// Recording a point adds exactly one point to the scorer and leaves the
/// other player's points as they were.
pub proof fn lemma_point_goes_to_the_scorer(score: Score, side: Side)
    requires
        points_of(score, side) < u32::MAX,
    ensures
        points_of(score_after_point(score, side), side) == points_of(score, side) + 1,
        points_of(score_after_point(score, side), opposite_side(side)) == points_of(
            score,
            opposite_side(side),
        ),
{
}

/// Error returned when the backend thread is gone but a snapshot is needed.
#[derive(Debug, Clone, Copy, PartialEq, Eq, Structural)]
pub struct BackendClosed;

} // verus!
