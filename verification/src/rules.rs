//! The match state machine: phases, the serving pause, scoring, winning
//! and restarts.
//!
//! [`MatchState`] holds everything about a match that is not geometry:
//! the phase, the score, the configuration, each paddle's steering intent,
//! the random stream and the events not yet reported. Every tick it tells
//! the physics what to simulate ([`TickPlan`]); the physics reports back
//! paddle hits and balls that left the field, and the state machine
//! decides what follows (the next serve, the game over).
use vstd::prelude::*;

use crate::protocol::{
    default_options, opposite_side, points_of, score_after_point, zero_score, Direction,
    GameEvent, GameOptions, GamePhase, InputEvent, Score, Side, SERVE_PAUSE_TICKS, WIN_SCORE,
};
use crate::rng::{coin_of, seeded_state, xorshift_step, Xorshift};

verus! {

/// Number of entries in the serve angle table (flat, +-15, +-30, +-45
/// degrees).
pub const SERVE_ANGLES: usize = 7;

/// The serve angle table entry that a random roll picks: the roll is
/// taken modulo 8 and the eighth residue maps to the flat entry again,
/// so the flat serve is twice as likely as any single angle.
pub open spec fn serve_angle_index_of(roll: u64) -> int {
    if roll % 8 == 7 {
        0
    } else {
        (roll % 8) as int
    }
}

/// Maps a random roll to an index into the serve angle table, doubling
/// the flat serve (roll 7 maps to the same entry as roll 0).
pub fn serve_angle_index(roll: u64) -> (index: usize)
    ensures
        index == serve_angle_index_of(roll),
        index < SERVE_ANGLES,
{
    let residue = roll % 8;
    if residue == 7 {
        0
    } else {
        residue as usize
    }
}

/// The residues of a roll modulo 8 that pick the table entry `index`.
pub open spec fn residues_picking(index: int) -> Set<u64> {
    Set::new(|r: u64| r < 8 && serve_angle_index_of(r) == index)
}

/// Exactly two of the eight residues pick the flat serve and exactly one
/// picks each angled entry: the flat serve is doubly weighted. Only the
/// residue of a roll modulo 8 matters.
pub proof fn lemma_flat_serve_is_doubly_weighted()
    ensures
        residues_picking(0) == set![0u64, 7u64],
        forall|i: int| 1 <= i < SERVE_ANGLES ==> #[trigger] residues_picking(i) == set![i as u64],
        forall|roll: u64| #[trigger]
            serve_angle_index_of(roll) == serve_angle_index_of((roll % 8) as u64),
{
    assert(residues_picking(0) =~= set![0u64, 7u64]);
    assert forall|i: int| 1 <= i < SERVE_ANGLES implies #[trigger] residues_picking(i) == set![
        i as u64,
    ] by {
        assert(residues_picking(i) =~= set![i as u64]);
    }
}

/// What a paddle's controller (a player's keys, or the AI) asks of it.
#[derive(Debug, Clone, Copy, PartialEq, Eq, Structural)]
pub struct PaddleIntent {
    /// Direction to keep moving in; `None` stops the paddle.
    pub direction: Option<Direction>,
    /// Whether the hold is confirmed (full speed) or a bare tap.
    pub held: bool,
}

/// A paddle nobody steers.
pub open spec fn idle_intent() -> PaddleIntent {
    PaddleIntent { direction: None, held: false }
}

/// What the physics has to simulate during one tick.
#[derive(Debug, Clone, Copy, PartialEq, Eq, Structural)]
pub enum TickPlan {
    /// The match is over: nothing moves.
    Frozen,
    /// Paddles move; the ball stays parked at the center.
    MovePaddles,
    /// Paddles move, then the ball is served toward `toward` at the
    /// serve angle table entry `angle_index`, keeping its speed.
    Launch { toward: Side, angle_index: usize },
    /// Full simulation: paddles, ball, bounces, and the check for a ball
    /// that left the field.
    Play,
}

/// The mathematical state of a match.
pub struct MatchModel {
    pub phase: GamePhase,
    pub score: Score,
    pub options: GameOptions,
    pub left: PaddleIntent,
    pub right: PaddleIntent,
    /// State of the random stream.
    pub rng: u64,
    /// Events not yet reported, oldest first.
    pub events: Seq<GameEvent>,
    /// Paddle hits since the last serve.
    pub rally_hits: u32,
}

impl MatchModel {
    /// Scores never pass the winning score; the match is over exactly when
    /// someone reached it; a serving countdown lies in `1 ..= 60`.
    pub open spec fn well_formed(self) -> bool {
        &&& self.score.left <= WIN_SCORE
        &&& self.score.right <= WIN_SCORE
        &&& match self.phase {
            GamePhase::GameOver { winner } => points_of(self.score, winner) == WIN_SCORE,
            GamePhase::Serving { toward, ticks_left } => {
                &&& 1 <= ticks_left <= SERVE_PAUSE_TICKS
                &&& self.score.left < WIN_SCORE
                &&& self.score.right < WIN_SCORE
            },
            _ => self.score.left < WIN_SCORE && self.score.right < WIN_SCORE,
        }
    }

    /// The intent of the paddle on `side`.
    pub open spec fn intent(self, side: Side) -> PaddleIntent {
        match side {
            Side::Left => self.left,
            Side::Right => self.right,
        }
    }

    /// The same state with the paddle on `side` steered by `intent`.
    pub open spec fn with_intent(self, side: Side, intent: PaddleIntent) -> MatchModel {
        match side {
            Side::Left => MatchModel { left: intent, ..self },
            Side::Right => MatchModel { right: intent, ..self },
        }
    }

    /// The serving pause toward `toward`: a full countdown and a fresh
    /// rally.
    pub open spec fn serving(self, toward: Side) -> MatchModel {
        MatchModel {
            phase: GamePhase::Serving { toward, ticks_left: SERVE_PAUSE_TICKS },
            rally_hits: 0,
            ..self
        }
    }

    /// A fresh match: score 0 : 0, paddles idle, and an opening serve
    /// toward a side picked by one coin flip of the random stream.
    pub open spec fn reset(self) -> MatchModel {
        let rng = xorshift_step(self.rng);
        let toward = if coin_of(rng) {
            Side::Left
        } else {
            Side::Right
        };
        MatchModel {
            score: zero_score(),
            left: idle_intent(),
            right: idle_intent(),
            rng,
            ..self
        }.serving(toward)
    }

    /// The state right after `event` has been applied.
    pub open spec fn after_input(self, event: InputEvent) -> MatchModel {
        match event {
            InputEvent::SetPaddleDirection { side, direction, held } => self.with_intent(
                side,
                PaddleIntent { direction, held },
            ),
            InputEvent::StartMatch(options) => MatchModel { options, ..self }.reset(),
            InputEvent::Restart => if self.phase is GameOver {
                self.reset()
            } else {
                self
            },
            InputEvent::Shutdown => self,
        }
    }

    /// Whether applying `event` starts a fresh match.
    pub open spec fn input_resets(self, event: InputEvent) -> bool {
        match event {
            InputEvent::StartMatch(_) => true,
            InputEvent::Restart => self.phase is GameOver,
            _ => false,
        }
    }

    /// The plan of the next tick.
    pub open spec fn plan(self) -> TickPlan {
        match self.phase {
            GamePhase::Waiting => TickPlan::MovePaddles,
            GamePhase::Serving { toward, ticks_left } => if ticks_left <= 1 {
                TickPlan::Launch {
                    toward,
                    angle_index: serve_angle_index_of(xorshift_step(self.rng)) as usize,
                }
            } else {
                TickPlan::MovePaddles
            },
            GamePhase::Playing => TickPlan::Play,
            GamePhase::GameOver { .. } => TickPlan::Frozen,
        }
    }

    /// The state after the next tick's decisions: a serving countdown
    /// goes down by one, and at its end the ball is served (one draw of
    /// the random stream picks the angle) and play begins. Every other
    /// phase is left as it is.
    pub open spec fn after_tick(self) -> MatchModel {
        match self.phase {
            GamePhase::Serving { toward, ticks_left } => if ticks_left <= 1 {
                MatchModel { phase: GamePhase::Playing, rng: xorshift_step(self.rng), ..self }
            } else {
                MatchModel {
                    phase: GamePhase::Serving { toward, ticks_left: (ticks_left - 1) as u16 },
                    ..self
                }
            },
            _ => self,
        }
    }

    /// The state after `scorer` won a rally: the point is recorded; at the
    /// winning score the match is over (announced by `GameOver` alone),
    /// otherwise the next serve goes toward the player who conceded
    /// (announced by `PointScored`).
    pub open spec fn after_point(self, scorer: Side) -> MatchModel {
        let score = score_after_point(self.score, scorer);
        if points_of(score, scorer) >= WIN_SCORE {
            MatchModel {
                score,
                phase: GamePhase::GameOver { winner: scorer },
                events: self.events.push(GameEvent::GameOver),
                ..self
            }
        } else {
            MatchModel { score, events: self.events.push(GameEvent::PointScored), ..self }.serving(
                opposite_side(scorer),
            )
        }
    }

    /// The state after `n` ticks' decisions.
    pub open spec fn after_ticks(self, n: nat) -> MatchModel
        decreases n,
    {
        if n == 0 {
            self
        } else {
            self.after_tick().after_ticks((n - 1) as nat)
        }
    }

    /// The state after the ball bounced off a paddle.
    pub open spec fn after_paddle_hit(self) -> MatchModel {
        MatchModel {
            events: self.events.push(GameEvent::PaddleHit),
            rally_hits: if self.rally_hits < u32::MAX {
                (self.rally_hits + 1) as u32
            } else {
                self.rally_hits
            },
            ..self
        }
    }
}

/// Between points the game pauses for exactly the serving countdown: a
/// serve with `ticks_left` ticks to go stays serving toward the same side
/// (one tick less each tick, paddles only, the random stream untouched)
/// for `ticks_left - 1` ticks; the next tick serves the ball toward that
/// side, and play begins.
pub proof fn lemma_serving_countdown(model: MatchModel, toward: Side, ticks_left: u16, n: nat)
    requires
        model.phase == (GamePhase::Serving { toward, ticks_left }),
        1 <= ticks_left,
        n <= ticks_left,
    ensures
        n < ticks_left ==> model.after_ticks(n).phase == (GamePhase::Serving {
            toward,
            ticks_left: (ticks_left - n) as u16,
        }),
        n < ticks_left ==> model.after_ticks(n).rng == model.rng,
        n + 1 < ticks_left ==> model.after_ticks(n).plan() == TickPlan::MovePaddles,
        n + 1 == ticks_left ==> (model.after_ticks(n).plan() matches TickPlan::Launch {
            toward: launched,
            ..
        } && launched == toward),
        n == ticks_left ==> model.after_ticks(n).phase == GamePhase::Playing,
    decreases n,
{
    if n > 0 {
        let next = model.after_tick();
        if ticks_left > 1 {
            lemma_serving_countdown(next, toward, (ticks_left - 1) as u16, (n - 1) as nat);
        } else {
            assert(next.after_ticks(0) == next);
        }
    }
}

/// After a point that does not decide the match, the next ball flies
/// toward the player who conceded it, after the full serving pause; the
/// point is announced as `PointScored`.
pub proof fn lemma_serve_goes_to_the_loser(model: MatchModel, scorer: Side)
    requires
        model.phase == GamePhase::Playing,
        points_of(score_after_point(model.score, scorer), scorer) < WIN_SCORE,
    ensures
        model.after_point(scorer).events.last() == GameEvent::PointScored,
        model.after_point(scorer).after_ticks((SERVE_PAUSE_TICKS - 1) as nat).plan() matches TickPlan::Launch {
            toward,
            ..
        } && toward == opposite_side(scorer),
{
    lemma_serving_countdown(
        model.after_point(scorer),
        opposite_side(scorer),
        SERVE_PAUSE_TICKS,
        (SERVE_PAUSE_TICKS - 1) as nat,
    );
}

/// A finished match freezes: no number of ticks changes anything, every
/// tick's plan is `Frozen`, and only a restart or a new match leaves the
/// game-over phase.
pub proof fn lemma_game_over_freezes(model: MatchModel, n: nat, event: InputEvent)
    requires
        model.phase is GameOver,
    ensures
        model.after_ticks(n) == model,
        model.plan() == TickPlan::Frozen,
        !(event is Restart) && !(event is StartMatch) ==> model.after_input(event).phase
            == model.phase,
    decreases n,
{
    if n > 0 {
        lemma_game_over_freezes(model, (n - 1) as nat, event);
    }
}

/// A restart is ignored unless the match is over; a new match can start
/// at any time and always starts from 0 : 0 with a full serving pause.
pub proof fn lemma_restart_only_after_game_over(model: MatchModel, options: GameOptions)
    ensures
        !(model.phase is GameOver) ==> model.after_input(InputEvent::Restart) == model,
        model.after_input(InputEvent::StartMatch(options)).score == zero_score(),
        model.after_input(InputEvent::StartMatch(options)).options == options,
        model.after_input(InputEvent::StartMatch(options)).phase matches GamePhase::Serving {
            ticks_left,
            ..
        } && ticks_left == SERVE_PAUSE_TICKS,
{
}

/// Steering a paddle sets exactly that paddle's intent: afterwards the
/// paddle on `side` has the commanded direction and confirmation, and the
/// paddle on the other side is steered as before; nothing else changes.
pub proof fn lemma_steering_sets_only_that_paddle(
    model: MatchModel,
    side: Side,
    direction: Option<Direction>,
    held: bool,
)
    ensures
        model.after_input(InputEvent::SetPaddleDirection { side, direction, held }).intent(side)
            == (PaddleIntent { direction, held }),
        model.after_input(InputEvent::SetPaddleDirection { side, direction, held }).intent(
            opposite_side(side),
        ) == model.intent(opposite_side(side)),
        model.after_input(InputEvent::SetPaddleDirection { side, direction, held }).phase
            == model.phase,
        model.after_input(InputEvent::SetPaddleDirection { side, direction, held }).score
            == model.score,
        !model.input_resets(InputEvent::SetPaddleDirection { side, direction, held }),
{
}

/// A point adds one to the scorer only; the point that brings the scorer
/// to the winning score ends the match with the scorer as the winner and
/// announces only `GameOver`, any other point announces only
/// `PointScored` and pauses before the next serve.
pub proof fn lemma_points_and_the_deciding_point(model: MatchModel, scorer: Side)
    requires
        model.well_formed(),
        model.phase == GamePhase::Playing,
    ensures
        points_of(model.after_point(scorer).score, scorer) == points_of(model.score, scorer) + 1,
        points_of(model.after_point(scorer).score, opposite_side(scorer)) == points_of(
            model.score,
            opposite_side(scorer),
        ),
        points_of(model.score, scorer) + 1 == WIN_SCORE ==> {
            &&& model.after_point(scorer).phase == (GamePhase::GameOver { winner: scorer })
            &&& model.after_point(scorer).events == model.events.push(GameEvent::GameOver)
        },
        points_of(model.score, scorer) + 1 < WIN_SCORE ==> {
            &&& model.after_point(scorer).phase is Serving
            &&& model.after_point(scorer).events == model.events.push(GameEvent::PointScored)
        },
        model.after_point(scorer).well_formed(),
{
}

/// Every paddle hit is counted: below the counter's limit a hit raises the
/// rally count by exactly one and queues exactly one `PaddleHit`; the
/// phase and the score stay as they were.
pub proof fn lemma_each_paddle_hit_counts(model: MatchModel)
    ensures
        model.rally_hits < u32::MAX ==> model.after_paddle_hit().rally_hits == model.rally_hits
            + 1,
        model.rally_hits == u32::MAX ==> model.after_paddle_hit().rally_hits == u32::MAX,
        model.after_paddle_hit().events == model.events.push(GameEvent::PaddleHit),
        model.after_paddle_hit().phase == model.phase,
        model.after_paddle_hit().score == model.score,
{
}

/// The state of a match, apart from geometry.
#[derive(Debug)]
pub struct MatchState {
    phase: GamePhase,
    score: Score,
    options: GameOptions,
    left: PaddleIntent,
    right: PaddleIntent,
    rng: Xorshift,
    events: Vec<GameEvent>,
    rally_hits: u32,
}

impl View for MatchState {
    type V = MatchModel;

    closed spec fn view(&self) -> MatchModel {
        MatchModel {
            phase: self.phase,
            score: self.score,
            options: self.options,
            left: self.left,
            right: self.right,
            rng: self.rng@,
            events: self.events@,
            rally_hits: self.rally_hits,
        }
    }
}

/// A well-formed match keeps its model well formed: scores never pass
/// the winning score, and the match is over exactly when one of them
/// reached it.
pub proof fn lemma_match_is_well_formed(state: &MatchState)
    requires
        state.wf(),
    ensures
        state@.well_formed(),
{
}

impl MatchState {
    /// The model is well formed and the random stream is alive.
    pub closed spec fn wf(&self) -> bool {
        &&& self.rng.wf()
        &&& self@.well_formed()
    }

    /// A match paused before its first serve, which flies toward a
    /// random side; default configuration.
    pub fn new(seed: u64) -> (state: Self)
        ensures
            state.wf(),
            state@ == (MatchModel {
                phase: GamePhase::Waiting,
                score: zero_score(),
                options: default_options(),
                left: idle_intent(),
                right: idle_intent(),
                rng: seeded_state(seed),
                events: Seq::empty(),
                rally_hits: 0,
            }).reset(),
    {
        let mut state = MatchState::waiting(seed);
        state.reset();
        state
    }

    /// A backend with no match running: nothing happens until a
    /// [`InputEvent::StartMatch`] arrives.
    pub fn waiting(seed: u64) -> (state: Self)
        ensures
            state.wf(),
            state@ == (MatchModel {
                phase: GamePhase::Waiting,
                score: zero_score(),
                options: default_options(),
                left: idle_intent(),
                right: idle_intent(),
                rng: seeded_state(seed),
                events: Seq::empty(),
                rally_hits: 0,
            }),
    {
        MatchState {
            phase: GamePhase::Waiting,
            score: Score::default(),
            options: GameOptions::default(),
            left: PaddleIntent { direction: None, held: false },
            right: PaddleIntent { direction: None, held: false },
            rng: Xorshift::new(seed),
            events: Vec::new(),
            rally_hits: 0,
        }
    }

    /// Current phase.
    pub fn phase(&self) -> (phase: GamePhase)
        ensures
            phase == self@.phase,
    {
        self.phase
    }

    /// Current score.
    pub fn score(&self) -> (score: Score)
        ensures
            score == self@.score,
    {
        self.score
    }

    /// Configuration of the current match.
    pub fn options(&self) -> (options: GameOptions)
        ensures
            options == self@.options,
    {
        self.options
    }

    /// The steering intent of the paddle on `side`.
    pub fn intent(&self, side: Side) -> (intent: PaddleIntent)
        ensures
            intent == self@.intent(side),
    {
        match side {
            Side::Left => self.left,
            Side::Right => self.right,
        }
    }

    /// Paddle hits since the last serve.
    pub fn rally_hits(&self) -> (hits: u32)
        ensures
            hits == self@.rally_hits,
    {
        self.rally_hits
    }

    /// Draws one value from the match's random stream.
    pub fn next_random(&mut self) -> (x: u64)
        requires
            old(self).wf(),
        ensures
            final(self).wf(),
            x == xorshift_step(old(self)@.rng),
            final(self)@ == (MatchModel { rng: x, ..old(self)@ }),
    {
        self.rng.next_u64()
    }

    /// Enters the serving pause toward `toward`.
    fn begin_serve(&mut self, toward: Side)
        requires
            old(self).score.left < WIN_SCORE,
            old(self).score.right < WIN_SCORE,
        ensures
            final(self)@ == old(self)@.serving(toward),
            final(self).rng == old(self).rng,
    {
        self.phase = GamePhase::Serving { toward, ticks_left: SERVE_PAUSE_TICKS };
        self.rally_hits = 0;
    }

    /// Resets to a fresh match with an opening serve toward a random side.
    fn reset(&mut self)
        requires
            old(self).rng.wf(),
        ensures
            final(self).wf(),
            final(self)@ == old(self)@.reset(),
    {
        self.score = Score::default();
        self.left = PaddleIntent { direction: None, held: false };
        self.right = PaddleIntent { direction: None, held: false };
        let toward = if self.rng.next_bool() {
            Side::Left
        } else {
            Side::Right
        };
        self.begin_serve(toward);
    }

    /// Applies one input event from the frontend; returns whether a fresh
    /// match started (the physics then re-centers paddles and ball).
    pub fn handle_input(&mut self, event: InputEvent) -> (reset: bool)
        requires
            old(self).wf(),
        ensures
            final(self).wf(),
            final(self)@ == old(self)@.after_input(event),
            reset == old(self)@.input_resets(event),
    {
        match event {
            InputEvent::SetPaddleDirection { side, direction, held } => {
                match side {
                    Side::Left => self.left = PaddleIntent { direction, held },
                    Side::Right => self.right = PaddleIntent { direction, held },
                }
                false
            },
            InputEvent::StartMatch(options) => {
                self.options = options;
                self.reset();
                true
            },
            InputEvent::Restart => {
                if let GamePhase::GameOver { .. } = self.phase {
                    self.reset();
                    true
                } else {
                    false
                }
            },
            // Shutdown is handled by the runtime, not by the simulation.
            InputEvent::Shutdown => false,
        }
    }

    /// Decides what the next tick simulates and advances the phase.
    ///
    /// * waiting: paddles move, the ball stays parked;
    /// * serving: paddles move, the ball waits at the center until the
    ///   countdown runs out, then it is served;
    /// * playing: full simulation;
    /// * game over: everything freezes until a restart.
    pub fn tick(&mut self) -> (plan: TickPlan)
        requires
            old(self).wf(),
        ensures
            final(self).wf(),
            plan == old(self)@.plan(),
            final(self)@ == old(self)@.after_tick(),
    {
        match self.phase {
            GamePhase::Waiting => TickPlan::MovePaddles,
            GamePhase::Serving { toward, ticks_left } => {
                if ticks_left <= 1 {
                    let roll = self.rng.next_u64();
                    self.phase = GamePhase::Playing;
                    TickPlan::Launch { toward, angle_index: serve_angle_index(roll) }
                } else {
                    self.phase = GamePhase::Serving { toward, ticks_left: ticks_left - 1 };
                    TickPlan::MovePaddles
                }
            },
            GamePhase::Playing => TickPlan::Play,
            GamePhase::GameOver { .. } => TickPlan::Frozen,
        }
    }

    /// Records that the ball bounced off a paddle.
    pub fn paddle_hit(&mut self)
        requires
            old(self).wf(),
        ensures
            final(self).wf(),
            final(self)@ == old(self)@.after_paddle_hit(),
    {
        self.events.push(GameEvent::PaddleHit);
        if self.rally_hits < u32::MAX {
            self.rally_hits = self.rally_hits + 1;
        }
    }

    /// Records that the ball left the field and `scorer` won the point.
    pub fn point_scored(&mut self, scorer: Side)
        requires
            old(self).wf(),
            old(self)@.phase == GamePhase::Playing,
        ensures
            final(self).wf(),
            final(self)@ == old(self)@.after_point(scorer),
    {
        self.score.record(scorer);
        let points = match scorer {
            Side::Left => self.score.left,
            Side::Right => self.score.right,
        };
        if points >= WIN_SCORE {
            self.phase = GamePhase::GameOver { winner: scorer };
            self.events.push(GameEvent::GameOver);
        } else {
            self.events.push(GameEvent::PointScored);
            // Serve toward the player who just conceded.
            self.begin_serve(scorer.opposite());
        }
    }

    /// Hands out the events not yet reported, oldest first; each event is
    /// handed out exactly once.
    pub fn take_events(&mut self) -> (events: Vec<GameEvent>)
        requires
            old(self).wf(),
        ensures
            final(self).wf(),
            events@ == old(self)@.events,
            final(self)@ == (MatchModel { events: Seq::empty(), ..old(self)@ }),
    {
        let mut events = Vec::new();
        std::mem::swap(&mut events, &mut self.events);
        events
    }
}

} // verus!
