//! Maps key events to backend input events.
//!
//! Most terminals never report key releases, so key state is **inferred
//! from auto-repeat**: the OS re-sends a held key roughly 30 times per
//! second, so a steady stream of events means "still held", and a silent
//! gap means "released".
//!
//! * once the repeat stream is flowing, a release is detected within an
//!   **adaptive window**: the stream's measured interval (a running mean
//!   over confirmed-to-confirmed arrivals, weight 1/2 on each new sample)
//!   times 2.5, clamped to [`RELEASE_TIMEOUT_MIN`] ..= [`RELEASE_TIMEOUT`].
//!   The fallback before any interval has been measured is
//!   [`RELEASE_TIMEOUT`];
//! * before the first repeat arrives (the OS repeat delay, ~500 ms with
//!   default settings), a gap is only conclusive after
//!   [`HOLD_START_TIMEOUT`];
//! * terminals that do encode releases get exact behavior for free: a
//!   release event clears the key immediately.
//!
//! If both keys of one side are held, the most recently pressed one wins;
//! when a key expires or is released, the still-held one takes over.
//!
//! Times are nanoseconds on a monotonic clock.
use vstd::prelude::*;

use crate::protocol::{Direction, InputEvent, Opponent, Side};

verus! {

/// Nanoseconds in a millisecond.
pub const NANOS_PER_MS: u64 = 1_000_000;

/// Upper bound (and pre-measurement fallback) of the adaptive window
/// after which a repeating key that went silent is considered released:
/// 150 ms.
pub const RELEASE_TIMEOUT: u64 = 150 * NANOS_PER_MS;

/// Lower bound of the adaptive release window, 60 ms. Protects a jittery
/// stream whose measured interval would otherwise shrink the window below
/// the stream's own noise.
pub const RELEASE_TIMEOUT_MIN: u64 = 60 * NANOS_PER_MS;

/// How long to wait for the first auto-repeat after a press, 600 ms. Must
/// exceed the OS key-repeat delay (~500 ms with common default settings).
pub const HOLD_START_TIMEOUT: u64 = 600 * NANOS_PER_MS;

/// Which key an event is about.
#[derive(Debug, Clone, Copy, PartialEq, Eq, Structural)]
pub enum KeyCode {
    Up,
    Down,
    Left,
    Right,
    Enter,
    Esc,
    Char(char),
    F(u8),
    /// Any other key.
    Other,
}

/// Whether a key went down, repeats, or went up.
#[derive(Debug, Clone, Copy, PartialEq, Eq, Structural)]
pub enum KeyKind {
    Press,
    Repeat,
    Release,
}

/// One key event.
#[derive(Debug, Clone, Copy, PartialEq, Eq, Structural)]
pub struct Key {
    pub code: KeyCode,
    pub kind: KeyKind,
    /// Whether the Control modifier is down.
    pub ctrl: bool,
}

/// What the frontend should do with an input-model update.
#[derive(Debug, Clone, Copy, PartialEq, Eq, Structural)]
pub enum Action {
    /// Forward this event to the backend.
    Send(InputEvent),
    /// Return to the start menu. Meaningful only at a game over: the
    /// main loop checks the snapshot phase before honoring it.
    Menu,
    /// Stop the frontend loop.
    Quit,
}

/// Time elapsed from `since` to `now`, zero if `since` is later.
pub open spec fn elapsed(now: u64, since: u64) -> u64 {
    if now >= since {
        (now - since) as u64
    } else {
        0
    }
}

/// The running estimate after folding in one more measured interval:
/// the first sample is taken as it is, later ones are averaged with the
/// previous estimate (rounded down to the nanosecond).
pub open spec fn folded_interval(prev: Option<u64>, sample: u64) -> u64 {
    match prev {
        None => sample,
        Some(prev) => ((prev + sample) / 2) as u64,
    }
}

/// The adaptive silence window of a confirmed key: the measured interval
/// times 2.5, clamped to `RELEASE_TIMEOUT_MIN ..= RELEASE_TIMEOUT`; the
/// ceiling until a rhythm has been measured at all.
pub open spec fn window_of(interval: Option<u64>) -> u64 {
    match interval {
        Some(interval) => {
            let scaled = interval * 5 / 2;
            if scaled < RELEASE_TIMEOUT_MIN {
                RELEASE_TIMEOUT_MIN
            } else if scaled > RELEASE_TIMEOUT {
                RELEASE_TIMEOUT
            } else {
                scaled as u64
            }
        },
        None => RELEASE_TIMEOUT,
    }
}

/// Folds one measured interval into the running estimate (weight 1/2 on
/// the new sample: converges within a few events).
pub fn fold_interval(prev: Option<u64>, sample: u64) -> (next: Option<u64>)
    ensures
        next == Some(folded_interval(prev, sample)),
{
    match prev {
        None => Some(sample),
        Some(prev) => Some(prev / 2 + sample / 2 + (prev % 2 + sample % 2) / 2),
    }
}

/// The adaptive silence window of a confirmed key.
pub fn release_window(interval: Option<u64>) -> (window: u64)
    ensures
        window == window_of(interval),
        RELEASE_TIMEOUT_MIN <= window <= RELEASE_TIMEOUT,
{
    match interval {
        Some(interval) => {
            if interval >= RELEASE_TIMEOUT {
                RELEASE_TIMEOUT
            } else {
                let scaled = interval * 5 / 2;
                if scaled < RELEASE_TIMEOUT_MIN {
                    RELEASE_TIMEOUT_MIN
                } else if scaled > RELEASE_TIMEOUT {
                    RELEASE_TIMEOUT
                } else {
                    scaled
                }
            }
        },
        None => RELEASE_TIMEOUT,
    }
}

/// Bookkeeping for one held movement key.
#[derive(Debug, Clone, Copy, PartialEq, Eq, Structural)]
pub struct KeyHold {
    /// When the key's last event arrived.
    pub last_seen: u64,
    /// Whether the hold is confirmed: evidence beyond the initial press
    /// has arrived (an auto-repeat, which legacy terminals deliver as a
    /// fresh press, or an explicit repeat event). Unconfirmed keys still
    /// move the paddle, but at the reduced tap speed.
    pub confirmed: bool,
    /// Running estimate of the auto-repeat interval, sampled between
    /// confirmed arrivals only: the first gap after a press carries the
    /// OS repeat delay, not the stream's rhythm. `None` until the first
    /// rhythm sample.
    pub repeat_interval: Option<u64>,
}

/// The hold that a first event for a key starts: confirmed from the
/// start only when the terminal says it is a repeat.
pub open spec fn fresh_hold(kind: KeyKind, now: u64) -> KeyHold {
    KeyHold { last_seen: now, confirmed: kind == KeyKind::Repeat, repeat_interval: None }
}

impl KeyHold {
    /// How long the key may stay silent before it counts as released.
    pub open spec fn timeout(self) -> u64 {
        if self.confirmed {
            window_of(self.repeat_interval)
        } else {
            HOLD_START_TIMEOUT
        }
    }

    /// Whether the key has been silent for longer than its timeout.
    pub open spec fn is_expired(self, now: u64) -> bool {
        elapsed(now, self.last_seen) > self.timeout()
    }

    /// The hold after another event for the same key arrived at `now`:
    /// confirmed from then on, and, if it already was confirmed, with the
    /// gap folded into the rhythm estimate.
    pub open spec fn refreshed(self, now: u64) -> KeyHold {
        KeyHold {
            last_seen: now,
            confirmed: true,
            repeat_interval: if self.confirmed {
                Some(folded_interval(self.repeat_interval, elapsed(now, self.last_seen)))
            } else {
                self.repeat_interval
            },
        }
    }

    fn expired(&self, now: u64) -> (expired: bool)
        ensures
            expired == self.is_expired(now),
    {
        let timeout = if self.confirmed {
            release_window(self.repeat_interval)
        } else {
            HOLD_START_TIMEOUT
        };
        now.saturating_sub(self.last_seen) > timeout
    }

    fn refresh(&mut self, now: u64)
        ensures
            *final(self) == old(self).refreshed(now),
    {
        // Measure the rhythm only between confirmed arrivals: the first
        // gap after the press is the OS repeat delay.
        if self.confirmed {
            self.repeat_interval = fold_interval(
                self.repeat_interval,
                now.saturating_sub(self.last_seen),
            );
        }
        self.last_seen = now;
        self.confirmed = true;
    }
}

/// The other vertical direction.
pub open spec fn other_direction(direction: Direction) -> Direction {
    match direction {
        Direction::Up => Direction::Down,
        Direction::Down => Direction::Up,
    }
}

/// Per-side held-key bookkeeping.
#[derive(Debug, Clone, Copy, PartialEq, Eq, Structural)]
pub struct SideState {
    pub up: Option<KeyHold>,
    pub down: Option<KeyHold>,
    /// Most recently pressed direction among the held keys, used to break
    /// the "both keys held" tie.
    pub last_pressed: Option<Direction>,
    /// Direction last reported to the backend for this side.
    pub current: Option<Direction>,
    /// `held` flag of the last report; a confirmation arriving for the
    /// same direction must be forwarded so the paddle speeds up.
    pub current_held: bool,
}

/// A side with no key held and nothing reported.
pub open spec fn idle_side() -> SideState {
    SideState { up: None, down: None, last_pressed: None, current: None, current_held: false }
}

impl SideState {
    /// The hold of the key behind `direction`.
    pub open spec fn slot(self, direction: Direction) -> Option<KeyHold> {
        match direction {
            Direction::Up => self.up,
            Direction::Down => self.down,
        }
    }

    /// The same side with the key behind `direction` set to `hold`.
    pub open spec fn with_slot(self, direction: Direction, hold: Option<KeyHold>) -> SideState {
        match direction {
            Direction::Up => SideState { up: hold, ..self },
            Direction::Down => SideState { down: hold, ..self },
        }
    }

    /// The tie-breaker always names a held key, and some key is named
    /// whenever one is held.
    pub open spec fn tie_breaker_ok(self) -> bool {
        &&& (self.last_pressed == Some(Direction::Up) ==> self.up is Some)
        &&& (self.last_pressed == Some(Direction::Down) ==> self.down is Some)
        &&& (self.up is Some || self.down is Some) ==> self.last_pressed is Some
    }

    /// The last report matches the held keys: it names the effective
    /// direction and whether its key is a confirmed hold.
    pub open spec fn report_is_current(self) -> bool {
        &&& self.current == self.effective_direction()
        &&& self.current_held == self.confirmed_hold(self.effective_direction())
    }

    /// The tie-breaker is consistent and the backend knows the current
    /// steering.
    pub open spec fn wf(self) -> bool {
        self.tie_breaker_ok() && self.report_is_current()
    }

    /// The direction the paddle should move in: the only held key, or the
    /// most recently pressed one when both are held.
    pub open spec fn effective_direction(self) -> Option<Direction> {
        match (self.up, self.down) {
            (Some(_), None) => Some(Direction::Up),
            (None, Some(_)) => Some(Direction::Down),
            (Some(_), Some(_)) => self.last_pressed,
            (None, None) => None,
        }
    }

    /// Whether the key behind `direction` (if any) is a confirmed hold.
    pub open spec fn confirmed_hold(self, direction: Option<Direction>) -> bool {
        match direction {
            Some(direction) => match self.slot(direction) {
                Some(hold) => hold.confirmed,
                None => false,
            },
            None => false,
        }
    }

    /// The side after a press (or repeat) of the key behind `direction`
    /// at `now`. Only a genuine first press makes the key the
    /// tie-breaker: interleaved repeat streams must not flip the winner.
    pub open spec fn pressed(self, direction: Direction, kind: KeyKind, now: u64) -> SideState {
        match self.slot(direction) {
            Some(hold) => self.with_slot(direction, Some(hold.refreshed(now))),
            None => SideState {
                last_pressed: Some(direction),
                ..self.with_slot(direction, Some(fresh_hold(kind, now)))
            },
        }
    }

    /// The side after the key behind `direction` was released; if it was
    /// the tie-breaker, the still-held key (if any) takes over.
    pub open spec fn released(self, direction: Direction) -> SideState {
        let rest = self.with_slot(direction, None);
        if self.last_pressed == Some(direction) {
            SideState { last_pressed: rest.effective_direction(), ..rest }
        } else {
            rest
        }
    }

    /// The side with every key silent for too long at `now` dropped; if
    /// the tie-breaker expired, the still-held key (if any) takes over.
    pub open spec fn swept(self, now: u64) -> SideState {
        let up_expired = self.up matches Some(hold) && hold.is_expired(now);
        let down_expired = self.down matches Some(hold) && hold.is_expired(now);
        let rest = SideState {
            up: if up_expired {
                None
            } else {
                self.up
            },
            down: if down_expired {
                None
            } else {
                self.down
            },
            ..self
        };
        let last_pressed_expired = match self.last_pressed {
            Some(Direction::Up) => up_expired,
            Some(Direction::Down) => down_expired,
            None => false,
        };
        if last_pressed_expired {
            SideState { last_pressed: rest.effective_direction(), ..rest }
        } else {
            rest
        }
    }

    /// The event that reports this side's effective direction and
    /// confirmation, if either differs from the last report.
    pub open spec fn report(self, side: Side) -> Option<InputEvent> {
        let direction = self.effective_direction();
        let held = self.confirmed_hold(direction);
        if direction == self.current && held == self.current_held {
            None
        } else {
            Some(InputEvent::SetPaddleDirection { side, direction, held })
        }
    }

    /// The side after its effective direction has been reported.
    pub open spec fn reported(self) -> SideState {
        SideState {
            current: self.effective_direction(),
            current_held: self.confirmed_hold(self.effective_direction()),
            ..self
        }
    }

    fn idle() -> (side: Self)
        ensures
            side == idle_side(),
    {
        SideState { up: None, down: None, last_pressed: None, current: None, current_held: false }
    }

    fn effective(&self) -> (direction: Option<Direction>)
        ensures
            direction == self.effective_direction(),
    {
        match (self.up.is_some(), self.down.is_some()) {
            (true, false) => Some(Direction::Up),
            (false, true) => Some(Direction::Down),
            (true, true) => self.last_pressed,
            (false, false) => None,
        }
    }

    /// Whether the key behind `direction` (if any) is a confirmed hold.
    fn held_of(&self, direction: Option<Direction>) -> (held: bool)
        ensures
            held == self.confirmed_hold(direction),
    {
        match direction {
            Some(Direction::Up) => match &self.up {
                Some(hold) => hold.confirmed,
                None => false,
            },
            Some(Direction::Down) => match &self.down {
                Some(hold) => hold.confirmed,
                None => false,
            },
            None => false,
        }
    }

    /// Records the new effective direction and its confirmation, returning
    /// the event to send if either changed (including a change *to*
    /// stopped, or a tap becoming a confirmed full-speed hold).
    fn update_current(&mut self, side: Side) -> (event: Option<InputEvent>)
        ensures
            event == old(self).report(side),
            *final(self) == old(self).reported(),
    {
        let new = self.effective();
        let new_held = self.held_of(new);
        if new == self.current && new_held == self.current_held {
            // Already reported: nothing changes, not even the bookkeeping.
            return None;
        }
        self.current = new;
        self.current_held = new_held;
        Some(InputEvent::SetPaddleDirection { side, direction: new, held: new_held })
    }

    fn press(&mut self, direction: Direction, kind: KeyKind, now: u64)
        ensures
            *final(self) == old(self).pressed(direction, kind, now),
    {
        match direction {
            Direction::Up => {
                match self.up {
                    Some(mut hold) => {
                        hold.refresh(now);
                        self.up = Some(hold);
                    },
                    None => {
                        self.up = Some(
                            KeyHold {
                                last_seen: now,
                                confirmed: kind == KeyKind::Repeat,
                                repeat_interval: None,
                            },
                        );
                        self.last_pressed = Some(direction);
                    },
                }
            },
            Direction::Down => {
                match self.down {
                    Some(mut hold) => {
                        hold.refresh(now);
                        self.down = Some(hold);
                    },
                    None => {
                        self.down = Some(
                            KeyHold {
                                last_seen: now,
                                confirmed: kind == KeyKind::Repeat,
                                repeat_interval: None,
                            },
                        );
                        self.last_pressed = Some(direction);
                    },
                }
            },
        }
    }

    fn release(&mut self, direction: Direction)
        ensures
            *final(self) == old(self).released(direction),
    {
        match direction {
            Direction::Up => self.up = None,
            Direction::Down => self.down = None,
        }
        if self.last_pressed == Some(direction) {
            self.last_pressed = self.effective();
        }
    }

    fn sweep(&mut self, now: u64)
        ensures
            *final(self) == old(self).swept(now),
    {
        let up_expired = match &self.up {
            Some(hold) => hold.expired(now),
            None => false,
        };
        if up_expired {
            self.up = None;
        }
        let down_expired = match &self.down {
            Some(hold) => hold.expired(now),
            None => false,
        };
        if down_expired {
            self.down = None;
        }
        let last_pressed_expired = match self.last_pressed {
            Some(Direction::Up) => up_expired,
            Some(Direction::Down) => down_expired,
            None => false,
        };
        if last_pressed_expired {
            self.last_pressed = self.effective();
        }
    }
}

/// The paddle and direction a key steers, if it is a movement key: `w`
/// and `s` (either case) always steer the left paddle; the arrow keys
/// steer the right one, or the left one in AI matches.
pub open spec fn movement_of(code: KeyCode, arrows_are_left: bool) -> Option<(Side, Direction)> {
    let arrow_side = if arrows_are_left {
        Side::Left
    } else {
        Side::Right
    };
    match code {
        KeyCode::Up => Some((arrow_side, Direction::Up)),
        KeyCode::Down => Some((arrow_side, Direction::Down)),
        KeyCode::Char(c) => if c == 'w' || c == 'W' {
            Some((Side::Left, Direction::Up))
        } else if c == 's' || c == 'S' {
            Some((Side::Left, Direction::Down))
        } else {
            None
        },
        _ => None,
    }
}

/// The action of a non-movement key press: `r` restarts, `m` opens the
/// menu, `q` and Escape quit.
pub open spec fn command_of(code: KeyCode) -> Option<Action> {
    match code {
        KeyCode::Char('r') => Some(Action::Send(InputEvent::Restart)),
        KeyCode::Char('m') => Some(Action::Menu),
        KeyCode::Char('q') | KeyCode::Esc => Some(Action::Quit),
        _ => None,
    }
}

/// The mathematical state of the key-hold model.
pub struct InputModel {
    pub left: SideState,
    pub right: SideState,
    /// AI matches: the arrow keys steer the left paddle (the right one
    /// belongs to the backend).
    pub arrows_are_left: bool,
}

impl InputModel {
    /// Both sides keep their tie-breaker consistent.
    pub open spec fn wf(self) -> bool {
        self.left.wf() && self.right.wf()
    }

    pub open spec fn side(self, side: Side) -> SideState {
        match side {
            Side::Left => self.left,
            Side::Right => self.right,
        }
    }

    pub open spec fn with_side(self, side: Side, state: SideState) -> InputModel {
        match side {
            Side::Left => InputModel { left: state, ..self },
            Side::Right => InputModel { right: state, ..self },
        }
    }

    /// The side state after a movement key event, before reporting.
    pub open spec fn moved(self, side: Side, direction: Direction, kind: KeyKind, now: u64) -> SideState {
        if kind == KeyKind::Release {
            self.side(side).released(direction)
        } else {
            self.side(side).pressed(direction, kind, now)
        }
    }

    /// The model after `key` arrived at `now`. Control combinations and
    /// non-movement keys leave it unchanged.
    pub open spec fn after_key(self, key: Key, now: u64) -> InputModel {
        if key.ctrl {
            self
        } else {
            match movement_of(key.code, self.arrows_are_left) {
                Some((side, direction)) => self.with_side(
                    side,
                    self.moved(side, direction, key.kind, now).reported(),
                ),
                None => self,
            }
        }
    }

    /// What `key` arriving at `now` asks the frontend to do.
    pub open spec fn key_action(self, key: Key, now: u64) -> Option<Action> {
        let pressed = key.kind != KeyKind::Release;
        if key.ctrl {
            if key.code == KeyCode::Char('c') && pressed {
                Some(Action::Quit)
            } else {
                None
            }
        } else {
            match movement_of(key.code, self.arrows_are_left) {
                Some((side, direction)) => match self.moved(side, direction, key.kind, now).report(
                    side,
                ) {
                    Some(event) => Some(Action::Send(event)),
                    None => None,
                },
                None => if pressed {
                    command_of(key.code)
                } else {
                    None
                },
            }
        }
    }

    /// The model after expiring silent keys at `now` and reporting.
    pub open spec fn after_sweep(self, now: u64) -> InputModel {
        InputModel {
            left: self.left.swept(now).reported(),
            right: self.right.swept(now).reported(),
            ..self
        }
    }

    /// The direction updates that expiring silent keys at `now` sends:
    /// the left side's first, then the right side's.
    pub open spec fn sweep_actions(self, now: u64) -> Seq<Action> {
        let left = match self.left.swept(now).report(Side::Left) {
            Some(event) => seq![Action::Send(event)],
            None => Seq::empty(),
        };
        let right = match self.right.swept(now).report(Side::Right) {
            Some(event) => seq![Action::Send(event)],
            None => Seq::empty(),
        };
        left + right
    }
}

/// Tracks which movement keys are currently held.
///
/// One instance lives in the frontend loop: every key event goes through
/// [`InputState::handle_key`], and every frame [`InputState::sweep`]
/// expires keys that went silent.
#[derive(Debug)]
pub struct InputState {
    left: SideState,
    right: SideState,
    arrows_are_left: bool,
}

impl View for InputState {
    type V = InputModel;

    closed spec fn view(&self) -> InputModel {
        InputModel { left: self.left, right: self.right, arrows_are_left: self.arrows_are_left }
    }
}

impl InputState {
    /// Nothing held, arrows on the right paddle.
    pub fn new() -> (state: Self)
        ensures
            state@ == (InputModel { left: idle_side(), right: idle_side(), arrows_are_left: false }),
            state@.wf(),
    {
        InputState { left: SideState::idle(), right: SideState::idle(), arrows_are_left: false }
    }

    /// Reconfigures the model for a fresh match: drops all held-key
    /// bookkeeping and remaps the arrow keys per the opponent. The
    /// backend clears its own paddle state on `StartMatch`, so no stop
    /// events need to be sent here.
    pub fn start_match(&mut self, opponent: Opponent)
        ensures
            final(self)@ == (InputModel {
                left: idle_side(),
                right: idle_side(),
                arrows_are_left: opponent is Ai,
            }),
            final(self)@.wf(),
    {
        self.left = SideState::idle();
        self.right = SideState::idle();
        self.arrows_are_left = match opponent {
            Opponent::Ai(_) => true,
            Opponent::TwoPlayer => false,
        };
    }

    fn side_mut(&mut self, side: Side) -> (state: &mut SideState)
        ensures
            *state == old(self)@.side(side),
            final(self)@ == old(self)@.with_side(side, *final(state)),
    {
        match side {
            Side::Left => &mut self.left,
            Side::Right => &mut self.right,
        }
    }

    /// Updates the model from one key event and returns the resulting
    /// action, if any. `None` means the event needs no backend traffic
    /// (repeats of an already-held key, unrelated keys).
    pub fn handle_key(&mut self, key: Key, now: u64) -> (action: Option<Action>)
        requires
            old(self)@.wf(),
        ensures
            final(self)@.wf(),
            final(self)@ == old(self)@.after_key(key, now),
            action == old(self)@.key_action(key, now),
    {
        let pressed = key.kind != KeyKind::Release;

        if key.ctrl {
            return match key.code {
                KeyCode::Char('c') if pressed => Some(Action::Quit),
                _ => None,
            };
        }

        let arrow_side = if self.arrows_are_left {
            Side::Left
        } else {
            Side::Right
        };
        let movement = match key.code {
            KeyCode::Up => Some((arrow_side, Direction::Up)),
            KeyCode::Down => Some((arrow_side, Direction::Down)),
            KeyCode::Char(c) => {
                if c == 'w' || c == 'W' {
                    Some((Side::Left, Direction::Up))
                } else if c == 's' || c == 'S' {
                    Some((Side::Left, Direction::Down))
                } else {
                    None
                }
            },
            _ => None,
        };

        let (side, direction) = match movement {
            Some(movement) => movement,
            None => {
                if !pressed {
                    return None;
                }
                return match key.code {
                    KeyCode::Char('r') => Some(Action::Send(InputEvent::Restart)),
                    KeyCode::Char('m') => Some(Action::Menu),
                    KeyCode::Char('q') | KeyCode::Esc => Some(Action::Quit),
                    _ => None,
                };
            },
        };

        let side_state = self.side_mut(side);
        if pressed {
            side_state.press(direction, key.kind, now);
        } else {
            // A terminal that does report releases.
            side_state.release(direction);
        }
        let event = side_state.update_current(side);
        proof {
            lemma_moves_keep_wf(old(self)@.side(side), direction, key.kind, now);
        }
        match event {
            Some(event) => Some(Action::Send(event)),
            None => None,
        }
    }

    /// Expires keys whose auto-repeat stream went silent. Call once per
    /// frame; returns the direction updates to send.
    pub fn sweep(&mut self, now: u64) -> (actions: Vec<Action>)
        requires
            old(self)@.wf(),
        ensures
            final(self)@.wf(),
            final(self)@ == old(self)@.after_sweep(now),
            actions@ == old(self)@.sweep_actions(now),
    {
        let mut actions = Vec::new();
        proof {
            lemma_sweep_keeps_wf(self.left, now);
            lemma_sweep_keeps_wf(self.right, now);
        }
        self.left.sweep(now);
        if let Some(event) = self.left.update_current(Side::Left) {
            actions.push(Action::Send(event));
        }
        self.right.sweep(now);
        if let Some(event) = self.right.update_current(Side::Right) {
            actions.push(Action::Send(event));
        }
        assert(actions@ =~= old(self)@.sweep_actions(now));
        actions
    }
}

impl Default for InputState {
    /// Nothing held, arrows on the right paddle.
    fn default() -> (state: Self)
        ensures
            state@ == (InputModel { left: idle_side(), right: idle_side(), arrows_are_left: false }),
    {
        InputState::new()
    }
}

/// Presses and releases keep a side's tie-breaker consistent, and
/// reporting afterwards brings the backend up to date.
pub proof fn lemma_moves_keep_wf(state: SideState, direction: Direction, kind: KeyKind, now: u64)
    requires
        state.tie_breaker_ok(),
    ensures
        state.pressed(direction, kind, now).tie_breaker_ok(),
        state.released(direction).tie_breaker_ok(),
        state.pressed(direction, kind, now).reported().wf(),
        state.released(direction).reported().wf(),
{
}

/// Expiring silent keys keeps a side's tie-breaker consistent, and
/// reporting afterwards brings the backend up to date.
pub proof fn lemma_sweep_keeps_wf(state: SideState, now: u64)
    requires
        state.tie_breaker_ok(),
    ensures
        state.swept(now).tie_breaker_ok(),
        state.swept(now).reported().wf(),
{
}

/// A repeat of an already-held key whose confirmed hold was last reported
/// needs no backend traffic.
pub proof fn lemma_confirmed_repeat_is_silent(
    model: InputModel,
    key: Key,
    now: u64,
    side: Side,
    direction: Direction,
)
    requires
        model.wf(),
        !key.ctrl,
        key.kind != KeyKind::Release,
        movement_of(key.code, model.arrows_are_left) == Some((side, direction)),
        model.side(side).current == Some(direction),
        model.side(side).current_held,
    ensures
        model.key_action(key, now) is None,
        model.after_key(key, now).side(side).current == Some(direction),
        model.after_key(key, now).side(side).current_held,
{
}

/// The effective direction is always a held key, and some direction is
/// effective whenever a key is held.
pub proof fn lemma_effective_direction_is_held(state: SideState)
    requires
        state.wf(),
    ensures
        state.effective_direction() is None <==> (state.up is None && state.down is None),
        forall|direction: Direction|
            state.effective_direction() == Some(direction) ==> #[trigger] state.slot(direction) is Some,
{
}

/// The most recently pressed key wins: a fresh press of a key that was not
/// held makes its direction the effective one, whatever else is held.
pub proof fn lemma_last_pressed_wins(
    state: SideState,
    direction: Direction,
    kind: KeyKind,
    now: u64,
)
    requires
        state.wf(),
        state.slot(direction) is None,
        kind != KeyKind::Release,
    ensures
        state.pressed(direction, kind, now).effective_direction() == Some(direction),
{
}

/// When a key is released, the still-held one (if any) takes over.
pub proof fn lemma_release_falls_back(state: SideState, direction: Direction)
    requires
        state.wf(),
    ensures
        state.released(direction).effective_direction() == if state.slot(
            other_direction(direction),
        ) is Some {
            Some(other_direction(direction))
        } else {
            None
        },
{
}

/// When the tie-breaker key goes silent for too long while the other key
/// keeps repeating, the still-held key takes over.
pub proof fn lemma_expiry_falls_back(state: SideState, direction: Direction, now: u64)
    requires
        state.wf(),
        state.last_pressed == Some(direction),
        state.slot(direction) matches Some(hold) && hold.is_expired(now),
        state.slot(other_direction(direction)) matches Some(hold) && !hold.is_expired(now),
    ensures
        state.swept(now).effective_direction() == Some(other_direction(direction)),
{
}

/// ASCII lowercase of a character: `A` to `Z` map to `a` to `z`, every
/// other character to itself.
pub open spec fn ascii_lowercase(c: char) -> char {
    if 'A' <= c && c <= 'Z' {
        ((c as u32) + 32) as char
    } else {
        c
    }
}

/// Movement keys do not depend on letter case: with Shift or Caps Lock
/// a letter steers exactly as its lowercase form does, whatever the
/// model, the event kind and the time; `w`/`W` steer the left paddle up
/// and `s`/`S` steer it down.
pub proof fn lemma_movement_ignores_letter_case(
    model: InputModel,
    c: char,
    kind: KeyKind,
    now: u64,
)
    requires
        movement_of(KeyCode::Char(ascii_lowercase(c)), model.arrows_are_left) is Some,
    ensures
        movement_of(KeyCode::Char(c), model.arrows_are_left) == movement_of(
            KeyCode::Char(ascii_lowercase(c)),
            model.arrows_are_left,
        ),
        model.key_action(Key { code: KeyCode::Char(c), kind, ctrl: false }, now) == model.key_action(
            Key { code: KeyCode::Char(ascii_lowercase(c)), kind, ctrl: false },
            now,
        ),
        model.after_key(Key { code: KeyCode::Char(c), kind, ctrl: false }, now) == model.after_key(
            Key { code: KeyCode::Char(ascii_lowercase(c)), kind, ctrl: false },
            now,
        ),
{
}

/// The letter keys' sides and directions: `w` and `W` steer the left
/// paddle up, `s` and `S` steer it down, whatever the arrow mapping.
pub proof fn lemma_letter_keys_steer_the_left_paddle(arrows_are_left: bool)
    ensures
        movement_of(KeyCode::Char('w'), arrows_are_left) == Some((Side::Left, Direction::Up)),
        movement_of(KeyCode::Char('W'), arrows_are_left) == Some((Side::Left, Direction::Up)),
        movement_of(KeyCode::Char('s'), arrows_are_left) == Some((Side::Left, Direction::Down)),
        movement_of(KeyCode::Char('S'), arrows_are_left) == Some((Side::Left, Direction::Down)),
{
}

/// Reporting settles a side: right after a report, reporting again sends
/// nothing.
pub proof fn lemma_report_settles(state: SideState, side: Side)
    ensures
        state.reported().report(side) is None,
{
}

/// The rhythm estimate stays between the previous estimate and the new
/// sample, and the silence window is two and a half measured intervals
/// (rounded down) whenever that lies between the floor and the ceiling.
pub proof fn lemma_window_tracks_the_rhythm(prev: u64, sample: u64, interval: u64)
    ensures
        (prev <= sample ==> prev <= folded_interval(Some(prev), sample) <= sample),
        (sample <= prev ==> sample <= folded_interval(Some(prev), sample) <= prev),
        folded_interval(None, sample) == sample,
        RELEASE_TIMEOUT_MIN <= interval * 5 / 2 <= RELEASE_TIMEOUT ==> window_of(Some(interval))
            * 2 <= interval * 5 < window_of(Some(interval)) * 2 + 2,
        window_of(None) == RELEASE_TIMEOUT,
{
}

/// A key expires exactly when its silence exceeds its timeout, and the
/// timeout of a confirmed key lies within the adaptive window's bounds.
pub proof fn lemma_timeout_bounds(hold: KeyHold)
    ensures
        hold.confirmed ==> RELEASE_TIMEOUT_MIN <= hold.timeout() <= RELEASE_TIMEOUT,
        !hold.confirmed ==> hold.timeout() == HOLD_START_TIMEOUT,
{
}

} // verus!
