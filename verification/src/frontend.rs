//! The frontend's decisions: which screen is shown, what a key or a frame
//! sends to the backend, when the score flashes, which beep an event
//! makes.
//!
//! The frontend loop itself (reading the terminal, drawing, talking to
//! the backend thread) performs the I/O; every decision it takes comes
//! from [`Frontend`]. Times are nanoseconds on a monotonic clock.
use vstd::prelude::*;

use crate::input::{idle_side, Action, InputModel, InputState, Key};
use crate::menu::{Menu, MenuAction, MenuModel};
use crate::protocol::{GameEvent, GamePhase, InputEvent, Opponent, Score};

verus! {

/// How long the score flash lasts after a point, in milliseconds.
pub const SCORE_FLASH_MS: u64 = 600;

/// Length of one on or off phase of the score flash, in milliseconds.
pub const SCORE_FLASH_BLINK_MS: u64 = 120;

/// Pitch of the beep for paddle hits and points, in Hz.
pub const HIT_FREQ_HZ: u32 = 440;

/// Pitch of the game-over beep, in Hz: one octave higher.
pub const GAME_OVER_FREQ_HZ: u32 = 880;

/// The pitch of the beep that announces `event`: paddle hits and point
/// scores share one pitch, the match end sounds an octave higher.
pub open spec fn beep_of(event: GameEvent) -> u32 {
    match event {
        GameEvent::PaddleHit | GameEvent::PointScored => HIT_FREQ_HZ,
        GameEvent::GameOver => GAME_OVER_FREQ_HZ,
    }
}

/// The pitch of the beep for `event`, in Hz.
pub fn beep_frequency_hz(event: GameEvent) -> (hz: u32)
    ensures
        hz == beep_of(event),
{
    match event {
        GameEvent::PaddleHit | GameEvent::PointScored => HIT_FREQ_HZ,
        GameEvent::GameOver => GAME_OVER_FREQ_HZ,
    }
}

/// The key hints under the court: in AI matches the arrow keys steer the
/// left paddle too.
pub open spec fn footer_hint_of(ai_opponent: bool) -> Seq<char> {
    if ai_opponent {
        "left: w/s ↑/↓  ·  restart: r  ·  menu: m  ·  quit: q"@
    } else {
        "left: w/s  ·  right: ↑/↓  ·  restart: r  ·  menu: m  ·  quit: q"@
    }
}

/// The key hints shown under the court.
pub fn footer_hint(ai_opponent: bool) -> (hint: &'static str)
    ensures
        hint@ == footer_hint_of(ai_opponent),
{
    if ai_opponent {
        "left: w/s ↑/↓  ·  restart: r  ·  menu: m  ·  quit: q"
    } else {
        "left: w/s  ·  right: ↑/↓  ·  restart: r  ·  menu: m  ·  quit: q"
    }
}

/// Which screen the frontend is showing.
#[derive(Debug, Clone, Copy)]
pub enum Screen {
    /// The start menu: pick an opponent and a ball speed mode.
    Menu(Menu),
    /// A match is running (or over: the game-over overlay belongs here).
    Match,
}

/// The mathematical counterpart of [`Screen`].
pub enum ScreenModel {
    Menu(MenuModel),
    Match,
}

/// What the frontend loop has to do after one decision: forward these
/// events to the backend, in order, then stop if `quit` is set.
#[derive(Debug)]
pub struct Step {
    pub sends: Vec<InputEvent>,
    pub quit: bool,
}

/// The mathematical state of the frontend.
pub struct FrontendModel {
    pub screen: ScreenModel,
    pub input: InputModel,
    /// When the current score flash started, if one did.
    pub flash_started: Option<u64>,
    /// Sum of both scores in the last snapshot seen.
    pub last_score_total: u32,
    /// Whether the current match is against the AI (the footer hints
    /// depend on it).
    pub ai_opponent: bool,
}

/// The whole-millisecond part of the time elapsed from `since` to `now`
/// (zero if `since` is later).
pub open spec fn elapsed_ms(now: u64, since: u64) -> int {
    if now >= since {
        (now - since) / 1_000_000
    } else {
        0
    }
}

/// Whether a flash that started at `started` shows the highlighted score
/// at `now`: during the first 600 ms, on for 120 ms, off for 120 ms.
pub open spec fn flash_on(started: Option<u64>, now: u64) -> bool {
    match started {
        Some(started) => {
            &&& elapsed_ms(now, started) < SCORE_FLASH_MS
            &&& (elapsed_ms(now, started) / (SCORE_FLASH_BLINK_MS as int)) % 2 == 0
        },
        None => false,
    }
}

/// The event an action forwards (sweeps only ever forward events).
pub open spec fn forwarded(action: Action) -> InputEvent {
    match action {
        Action::Send(event) => event,
        _ => InputEvent::Shutdown,
    }
}

impl FrontendModel {
    /// The held-key bookkeeping is consistent, and the menu (if shown)
    /// has valid indices.
    pub open spec fn wf(self) -> bool {
        &&& self.input.wf()
        &&& match self.screen {
            ScreenModel::Menu(menu) => menu.wf(),
            ScreenModel::Match => true,
        }
    }

    /// The frontend after a match-screen action: `Menu` goes back to a
    /// fresh start menu, dropping held-key bookkeeping, but only from a
    /// finished match; everything else leaves the screen as it is.
    pub open spec fn after_action(self, action: Action, phase: GamePhase) -> FrontendModel {
        match action {
            Action::Menu => if phase is GameOver {
                FrontendModel {
                    screen: ScreenModel::Menu(
                        MenuModel { selected: 0, opponent: 0, ball_speed: 1 },
                    ),
                    input: InputModel {
                        left: idle_side(),
                        right: idle_side(),
                        arrows_are_left: false,
                    },
                    ..self
                }
            } else {
                self
            },
            _ => self,
        }
    }

    /// The frontend after `key` arrived at `now`, while the backend is in
    /// `phase`.
    pub open spec fn after_key(self, key: Key, now: u64, phase: GamePhase) -> FrontendModel {
        match self.screen {
            ScreenModel::Match => {
                let moved = FrontendModel { input: self.input.after_key(key, now), ..self };
                match self.input.key_action(key, now) {
                    Some(action) => moved.after_action(action, phase),
                    None => moved,
                }
            },
            ScreenModel::Menu(menu) => match menu.key_action(key) {
                Some(MenuAction::Start(event)) => {
                    let (input, ai_opponent) = match event {
                        InputEvent::StartMatch(options) => (
                            InputModel {
                                left: idle_side(),
                                right: idle_side(),
                                arrows_are_left: options.opponent is Ai,
                            },
                            options.opponent is Ai,
                        ),
                        _ => (self.input, self.ai_opponent),
                    };
                    FrontendModel {
                        screen: ScreenModel::Match,
                        input,
                        ai_opponent,
                        last_score_total: 0,
                        flash_started: None,
                    }
                },
                Some(MenuAction::Quit) => self,
                None => FrontendModel {
                    screen: ScreenModel::Menu(menu.after_key(key)),
                    ..self
                },
            },
        }
    }

    /// What `key` asks the loop to send, and whether it quits.
    pub open spec fn key_sends(self, key: Key, now: u64) -> Seq<InputEvent> {
        match self.screen {
            ScreenModel::Match => match self.input.key_action(key, now) {
                Some(Action::Send(event)) => seq![event],
                _ => Seq::empty(),
            },
            ScreenModel::Menu(menu) => match menu.key_action(key) {
                Some(MenuAction::Start(event)) => seq![event],
                _ => Seq::empty(),
            },
        }
    }

    /// Whether `key` stops the frontend.
    pub open spec fn key_quits(self, key: Key, now: u64) -> bool {
        match self.screen {
            ScreenModel::Match => self.input.key_action(key, now) == Some(Action::Quit),
            ScreenModel::Menu(menu) => menu.key_action(key) == Some(MenuAction::Quit),
        }
    }
}

/// The frontend's state, apart from the terminal and the backend handle.
#[derive(Debug)]
pub struct Frontend {
    screen: Screen,
    input: InputState,
    flash_started: Option<u64>,
    last_score_total: u32,
    ai_opponent: bool,
}

impl View for Frontend {
    type V = FrontendModel;

    closed spec fn view(&self) -> FrontendModel {
        FrontendModel {
            screen: match self.screen {
                Screen::Menu(menu) => ScreenModel::Menu(menu@),
                Screen::Match => ScreenModel::Match,
            },
            input: self.input@,
            flash_started: self.flash_started,
            last_score_total: self.last_score_total,
            ai_opponent: self.ai_opponent,
        }
    }
}

impl Frontend {
    /// The start menu, nothing held, no flash.
    pub fn new() -> (frontend: Self)
        ensures
            frontend.wf(),
            frontend@.screen == ScreenModel::Menu(
                MenuModel { selected: 0, opponent: 0, ball_speed: 1 },
            ),
            frontend@.input == (InputModel {
                left: idle_side(),
                right: idle_side(),
                arrows_are_left: false,
            }),
            frontend@.flash_started is None,
            frontend@.last_score_total == 0,
            !frontend@.ai_opponent,
    {
        Frontend {
            screen: Screen::Menu(Menu::new()),
            input: InputState::new(),
            flash_started: None,
            last_score_total: 0,
            ai_opponent: false,
        }
    }

    /// The model is well formed.
    pub open spec fn wf(&self) -> bool {
        self@.wf()
    }

    /// The screen shown.
    pub fn screen(&self) -> (screen: Screen)
        ensures
            self@.screen == match screen {
                Screen::Menu(menu) => ScreenModel::Menu(menu@),
                Screen::Match => ScreenModel::Match,
            },
    {
        self.screen
    }

    /// Whether the current match is against the AI.
    pub fn ai_opponent(&self) -> (ai: bool)
        ensures
            ai == self@.ai_opponent,
    {
        self.ai_opponent
    }

    /// Applies one match-screen action.
    fn apply_action(&mut self, action: Action, phase: GamePhase, sends: &mut Vec<InputEvent>) -> (quit: bool)
        requires
            old(self).wf(),
        ensures
            final(self).wf(),
            final(self)@ == old(self)@.after_action(action, phase),
            final(sends)@ == match action {
                Action::Send(event) => old(sends)@.push(event),
                _ => old(sends)@,
            },
            quit == (action == Action::Quit),
    {
        match action {
            Action::Send(event) => {
                sends.push(event);
                false
            },
            // Back to the menu, but only from a finished match: M is an
            // end-of-match key, not a rage-quit.
            Action::Menu => {
                if let GamePhase::GameOver { .. } = phase {
                    self.screen = Screen::Menu(Menu::new());
                    // Drop held-key bookkeeping so it cannot leak stale
                    // directions into the next match.
                    self.input.start_match(Opponent::TwoPlayer);
                }
                false
            },
            Action::Quit => true,
        }
    }

    /// Handles one key event that arrived at `now`, while the latest
    /// snapshot shows `phase`.
    pub fn on_key(&mut self, key: Key, now: u64, phase: GamePhase) -> (step: Step)
        requires
            old(self).wf(),
        ensures
            final(self).wf(),
            final(self)@ == old(self)@.after_key(key, now, phase),
            step.sends@ == old(self)@.key_sends(key, now),
            step.quit == old(self)@.key_quits(key, now),
    {
        let mut sends = Vec::new();
        match self.screen {
            Screen::Match => {
                let quit = match self.input.handle_key(key, now) {
                    Some(action) => self.apply_action(action, phase, &mut sends),
                    None => false,
                };
                Step { sends, quit }
            },
            Screen::Menu(mut menu) => {
                let action = menu.handle_key(key);
                match action {
                    Some(MenuAction::Start(event)) => {
                        // Remap the keys first so the footer is right even
                        // before the first new snapshot.
                        if let InputEvent::StartMatch(options) = event {
                            self.input.start_match(options.opponent);
                            self.ai_opponent = match options.opponent {
                                Opponent::Ai(_) => true,
                                Opponent::TwoPlayer => false,
                            };
                        }
                        sends.push(event);
                        self.last_score_total = 0;
                        self.flash_started = None;
                        self.screen = Screen::Match;
                        Step { sends, quit: false }
                    },
                    Some(MenuAction::Quit) => Step { sends, quit: true },
                    None => {
                        self.screen = Screen::Menu(menu);
                        Step { sends, quit: false }
                    },
                }
            },
        }
    }

    /// Once per frame at `now`: expires held keys that went silent (only
    /// on the match screen; nothing is held in the menu).
    pub fn on_frame(&mut self, now: u64) -> (step: Step)
        requires
            old(self).wf(),
        ensures
            final(self).wf(),
            !step.quit,
            match old(self)@.screen {
                ScreenModel::Match => {
                    &&& final(self)@ == (FrontendModel {
                        input: old(self)@.input.after_sweep(now),
                        ..old(self)@
                    })
                    &&& step.sends@ == old(self)@.input.sweep_actions(now).map_values(
                        |action: Action| forwarded(action),
                    )
                },
                ScreenModel::Menu(_) => final(self)@ == old(self)@ && step.sends@.len() == 0,
            },
    {
        let mut sends: Vec<InputEvent> = Vec::new();
        if let Screen::Match = self.screen {
            let actions = self.input.sweep(now);
            let mut i: usize = 0;
            while i < actions.len()
                invariant
                    i <= actions@.len(),
                    sends@ == actions@.subrange(0, i as int).map_values(
                        |action: Action| forwarded(action),
                    ),
                decreases actions@.len() - i,
            {
                sends.push(forward(actions[i]));
                assert(actions@.subrange(0, i + 1 as int) =~= actions@.subrange(0, i as int).push(
                    actions@[i as int],
                ));
                i = i + 1;
            }
            assert(actions@.subrange(0, actions@.len() as int) =~= actions@);
        }
        Step { sends, quit: false }
    }

    /// Takes in the score of a fresh snapshot received at `now`: a score
    /// that went up starts the flash.
    pub fn on_snapshot(&mut self, score: Score, now: u64)
        requires
            old(self).wf(),
            score.left + score.right <= u32::MAX,
        ensures
            final(self).wf(),
            final(self)@ == (FrontendModel {
                flash_started: if score.left + score.right > old(self)@.last_score_total {
                    Some(now)
                } else {
                    old(self)@.flash_started
                },
                last_score_total: (score.left + score.right) as u32,
                ..old(self)@
            }),
    {
        let total = score.left + score.right;
        if total > self.last_score_total {
            self.flash_started = Some(now);
        }
        self.last_score_total = total;
    }

    /// Whether the score shows highlighted at `now`.
    pub fn score_flash(&self, now: u64) -> (on: bool)
        ensures
            on == flash_on(self@.flash_started, now),
    {
        match self.flash_started {
            Some(started) => {
                let elapsed = now.saturating_sub(started) / 1_000_000;
                elapsed < SCORE_FLASH_MS && (elapsed / SCORE_FLASH_BLINK_MS) % 2 == 0
            },
            None => false,
        }
    }
}

/// The score flash starts highlighted, blinks in 120 ms halves (on,
/// off, on, ...) and is over after 600 ms; with no flash started nothing
/// is highlighted.
pub proof fn lemma_flash_blinks_then_ends(started: u64, now: u64)
    ensures
        !flash_on(None, now),
        now >= started && now - started < 120 * 1_000_000 ==> flash_on(Some(started), now),
        now >= started && 120 * 1_000_000 <= now - started < 240 * 1_000_000 ==> !flash_on(
            Some(started),
            now,
        ),
        now >= started && 240 * 1_000_000 <= now - started < 360 * 1_000_000 ==> flash_on(
            Some(started),
            now,
        ),
        now >= started && now - started >= 600 * 1_000_000 ==> !flash_on(Some(started), now),
{
}

/// Paddle hits and points share one beep; the game over sounds exactly
/// one octave (twice the frequency) higher.
pub proof fn lemma_game_over_beeps_an_octave_higher()
    ensures
        beep_of(GameEvent::PaddleHit) == beep_of(GameEvent::PointScored),
        beep_of(GameEvent::GameOver) == 2 * beep_of(GameEvent::PaddleHit),
        beep_of(GameEvent::PaddleHit) == 440,
{
}

/// The event a sweep action forwards.
fn forward(action: Action) -> (event: InputEvent)
    ensures
        event == forwarded(action),
{
    match action {
        Action::Send(event) => event,
        _ => InputEvent::Shutdown,
    }
}

/// A frame's sweep only ever forwards direction updates: it never quits
/// and never opens the menu.
pub proof fn lemma_sweeps_only_forward_events(input: InputModel, now: u64)
    ensures
        forall|i: int|
            0 <= i < input.sweep_actions(now).len() ==> (#[trigger] input.sweep_actions(now)[i]) is Send,
{
}

/// The menu key is honored only at a game over: during a match it
/// changes nothing.
pub proof fn lemma_menu_key_only_after_game_over(model: FrontendModel, phase: GamePhase)
    requires
        !(phase is GameOver),
    ensures
        model.after_action(Action::Menu, phase) == model,
{
}

} // verus!
