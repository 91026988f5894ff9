use pong_core::input::{fold_interval, release_window, RELEASE_TIMEOUT, RELEASE_TIMEOUT_MIN};
use pong_core::{Action, Difficulty, Direction, InputEvent, InputState, Key, KeyCode, KeyKind, Opponent, Side};

fn key(code: KeyCode) -> Key {
    Key { code, kind: KeyKind::Press, ctrl: false }
}

fn release(code: KeyCode) -> Key {
    Key { code, kind: KeyKind::Release, ctrl: false }
}

fn repeat(code: KeyCode) -> Key {
    Key { code, kind: KeyKind::Repeat, ctrl: false }
}

/// An arbitrary start of the monotonic clock, in nanoseconds.
const BASE: u64 = 7_000_000_000;

/// Milliseconds after `base`, in nanoseconds.
fn at(base: u64, ms: u64) -> u64 {
    base + ms * 1_000_000
}

fn send(side: Side, direction: Option<Direction>, held: bool) -> Action {
    Action::Send(InputEvent::SetPaddleDirection { side, direction, held })
}

/// The full press -> silence -> stop cycle of a quick tap.
#[test]
fn tap_moves_then_expires() {
    let base = BASE;
    let mut state = InputState::new();
    assert_eq!(
        state.handle_key(key(KeyCode::Char('w')), at(base, 0)),
        Some(send(Side::Left, Some(Direction::Up), false))
    );
    assert!(state.sweep(at(base, 100)).is_empty());
    assert!(state.sweep(at(base, 550)).is_empty(), "still inside the hold-start window");
    assert_eq!(state.sweep(at(base, 610)), vec![send(Side::Left, None, false)]);
}

#[test]
fn press_moves_and_silence_stops() {
    let base = BASE;
    let mut state = InputState::new();
    state.handle_key(key(KeyCode::Down), at(base, 0));
    assert_eq!(state.sweep(at(base, 601)), vec![send(Side::Right, None, false)]);
}

/// The first auto-repeat confirms the hold: the same direction is
/// re-sent with the full-speed flag instead of the tap flag.
#[test]
fn confirming_repeat_upgrades_to_full_speed() {
    let base = BASE;
    let mut state = InputState::new();
    assert_eq!(
        state.handle_key(key(KeyCode::Char('w')), at(base, 0)),
        Some(send(Side::Left, Some(Direction::Up), false))
    );
    assert_eq!(
        state.handle_key(key(KeyCode::Char('w')), at(base, 500)),
        Some(send(Side::Left, Some(Direction::Up), true))
    );
    assert!(state.sweep(at(base, 550)).is_empty(), "still confirmed");
    assert_eq!(state.sweep(at(base, 700)), vec![send(Side::Left, None, false)]);
}

/// A flowing repeat stream keeps the key alive; its silence stops it.
#[test]
fn repeat_stream_keeps_key_alive_then_silence_stops() {
    let base = BASE;
    let mut state = InputState::new();
    state.handle_key(key(KeyCode::Char('s')), at(base, 0));
    state.handle_key(key(KeyCode::Char('s')), at(base, 500));
    state.handle_key(key(KeyCode::Char('s')), at(base, 533));
    state.handle_key(key(KeyCode::Char('s')), at(base, 566));
    assert!(state.sweep(at(base, 640)).is_empty(), "still repeating");
    assert_eq!(state.sweep(at(base, 660)), vec![send(Side::Left, None, false)]);
}

/// Two 30 ms samples give a 75 ms window: 90 ms of silence stops.
#[test]
fn release_window_adapts_to_the_repeat_rhythm() {
    let base = BASE;
    let mut state = InputState::new();
    state.handle_key(key(KeyCode::Char('w')), at(base, 0));
    state.handle_key(key(KeyCode::Char('w')), at(base, 500));
    state.handle_key(key(KeyCode::Char('w')), at(base, 530));
    state.handle_key(key(KeyCode::Char('w')), at(base, 560));
    assert!(
        state.sweep(at(base, 620)).is_empty(),
        "60 ms of silence is within the 75 ms window"
    );
    assert_eq!(state.sweep(at(base, 650)), vec![send(Side::Left, None, false)]);
}

/// A slow repeat stream (10 Hz) would want a 250 ms window; the
/// ceiling keeps it at the conservative 150 ms.
#[test]
fn slow_repeat_stream_gets_the_conservative_window() {
    let base = BASE;
    let mut state = InputState::new();
    state.handle_key(key(KeyCode::Char('w')), at(base, 0));
    state.handle_key(key(KeyCode::Char('w')), at(base, 500));
    state.handle_key(key(KeyCode::Char('w')), at(base, 600));
    state.handle_key(key(KeyCode::Char('w')), at(base, 700));
    assert!(
        state.sweep(at(base, 840)).is_empty(),
        "140 ms of silence is within the clamped 150 ms window"
    );
    assert_eq!(state.sweep(at(base, 860)), vec![send(Side::Left, None, false)]);
}

/// A pathologically fast measurement must not shrink the window below
/// the floor (60 ms).
#[test]
fn fast_estimate_never_shrinks_below_the_floor() {
    let base = BASE;
    let mut state = InputState::new();
    state.handle_key(key(KeyCode::Char('w')), at(base, 0));
    state.handle_key(key(KeyCode::Char('w')), at(base, 500));
    state.handle_key(key(KeyCode::Char('w')), at(base, 520));
    state.handle_key(key(KeyCode::Char('w')), at(base, 540));
    assert!(
        state.sweep(at(base, 590)).is_empty(),
        "50 ms of silence is within the 60 ms floor"
    );
    assert_eq!(state.sweep(at(base, 615)), vec![send(Side::Left, None, false)]);
}

/// The OS repeat delay between press and first repeat is not the rhythm.
#[test]
fn initial_repeat_delay_is_not_measured_as_rhythm() {
    let base = BASE;
    let mut state = InputState::new();
    state.handle_key(key(KeyCode::Char('w')), at(base, 0));
    state.handle_key(key(KeyCode::Char('w')), at(base, 500));
    state.handle_key(key(KeyCode::Char('w')), at(base, 530));
    state.handle_key(key(KeyCode::Char('w')), at(base, 560));
    assert_eq!(state.sweep(at(base, 660)), vec![send(Side::Left, None, false)]);
}

/// Terminals that do report releases stop the key immediately.
#[test]
fn release_event_clears_immediately() {
    let base = BASE;
    let mut state = InputState::new();
    state.handle_key(key(KeyCode::Char('w')), at(base, 0));
    assert_eq!(
        state.handle_key(release(KeyCode::Char('w')), at(base, 10)),
        Some(send(Side::Left, None, false))
    );
    assert!(state.sweep(at(base, 20)).is_empty());
}

#[test]
fn both_held_last_pressed_wins_and_release_falls_back() {
    let base = BASE;
    let mut state = InputState::new();
    state.handle_key(key(KeyCode::Char('w')), at(base, 0));
    assert_eq!(
        state.handle_key(key(KeyCode::Char('s')), at(base, 100)),
        Some(send(Side::Left, Some(Direction::Down), false))
    );
    assert_eq!(
        state.handle_key(release(KeyCode::Char('s')), at(base, 150)),
        Some(send(Side::Left, Some(Direction::Up), false))
    );
    assert_eq!(
        state.handle_key(release(KeyCode::Char('w')), at(base, 200)),
        Some(send(Side::Left, None, false))
    );
}

/// An expired tie-breaker key falls back to the still-repeating one.
#[test]
fn expired_tie_breaker_falls_back_to_the_still_repeating_key() {
    let base = BASE;
    let mut state = InputState::new();
    state.handle_key(key(KeyCode::Char('w')), at(base, 0));
    state.handle_key(key(KeyCode::Char('s')), at(base, 100));
    for t in [500, 530, 560, 590, 620, 650, 680] {
        state.handle_key(key(KeyCode::Char('w')), at(base, t));
    }
    assert_eq!(
        state.sweep(at(base, 710)),
        vec![send(Side::Left, Some(Direction::Up), true)]
    );
}

/// A dropped key re-establishes itself when its repeat events resume.
#[test]
fn key_re_establishes_after_a_false_expiry() {
    let base = BASE;
    let mut state = InputState::new();
    state.handle_key(key(KeyCode::Char('w')), at(base, 0));
    state.handle_key(key(KeyCode::Char('w')), at(base, 500));
    state.handle_key(key(KeyCode::Char('w')), at(base, 530));
    state.handle_key(key(KeyCode::Char('w')), at(base, 560));
    assert_eq!(state.sweep(at(base, 720)), vec![send(Side::Left, None, false)]);
    assert_eq!(
        state.handle_key(key(KeyCode::Char('w')), at(base, 725)),
        Some(send(Side::Left, Some(Direction::Up), false))
    );
    assert!(state.sweep(at(base, 740)).is_empty());
}

/// Terminals encoding repeats explicitly get the short timeout from the
/// very first event.
#[test]
fn repeat_kind_event_establishes_a_repeating_hold() {
    let base = BASE;
    let mut state = InputState::new();
    assert_eq!(
        state.handle_key(repeat(KeyCode::Char('s')), at(base, 0)),
        Some(send(Side::Left, Some(Direction::Down), true))
    );
    assert!(state.sweep(at(base, 100)).is_empty());
    assert_eq!(state.sweep(at(base, 200)), vec![send(Side::Left, None, false)]);
}

#[test]
fn sides_expire_independently() {
    let base = BASE;
    let mut state = InputState::new();
    state.handle_key(key(KeyCode::Char('w')), at(base, 0));
    state.handle_key(key(KeyCode::Up), at(base, 0));
    assert_eq!(
        state.sweep(at(base, 610)),
        vec![send(Side::Left, None, false), send(Side::Right, None, false)]
    );
}

#[test]
fn sweep_with_fresh_keys_sends_nothing() {
    let base = BASE;
    let mut state = InputState::new();
    state.handle_key(key(KeyCode::Char('s')), at(base, 0));
    assert!(state.sweep(at(base, 50)).is_empty());
}

#[test]
fn release_of_an_unheld_key_changes_nothing() {
    let base = BASE;
    let mut state = InputState::new();
    assert_eq!(state.handle_key(release(KeyCode::Down), at(base, 0)), None);
    assert!(state.sweep(at(base, 700)).is_empty());
}

#[test]
fn shifted_movement_keys_still_work() {
    let base = BASE;
    let mut state = InputState::new();
    assert_eq!(
        state.handle_key(key(KeyCode::Char('W')), at(base, 0)),
        Some(send(Side::Left, Some(Direction::Up), false))
    );
}

#[test]
fn quit_and_restart_only_fire_on_press() {
    let base = BASE;
    let mut state = InputState::new();
    assert_eq!(state.handle_key(key(KeyCode::Char('q')), at(base, 0)), Some(Action::Quit));
    assert_eq!(state.handle_key(key(KeyCode::Esc), at(base, 0)), Some(Action::Quit));
    assert_eq!(
        state.handle_key(key(KeyCode::Char('r')), at(base, 0)),
        Some(Action::Send(InputEvent::Restart))
    );
    assert_eq!(state.handle_key(release(KeyCode::Char('q')), at(base, 0)), None);
    assert_eq!(state.handle_key(release(KeyCode::Char('r')), at(base, 0)), None);
}

#[test]
fn control_c_quits_other_control_combos_ignored() {
    let base = BASE;
    let mut state = InputState::new();
    let ctrl_c = Key { code: KeyCode::Char('c'), kind: KeyKind::Press, ctrl: true };
    let ctrl_s = Key { code: KeyCode::Char('s'), kind: KeyKind::Press, ctrl: true };
    assert_eq!(state.handle_key(ctrl_c, at(base, 0)), Some(Action::Quit));
    assert_eq!(state.handle_key(ctrl_s, at(base, 0)), None);
}

#[test]
fn unrelated_keys_are_ignored() {
    let base = BASE;
    let mut state = InputState::new();
    assert_eq!(state.handle_key(key(KeyCode::Char('x')), at(base, 0)), None);
    assert_eq!(state.handle_key(key(KeyCode::F(5)), at(base, 0)), None);
    assert_eq!(state.handle_key(key(KeyCode::Enter), at(base, 0)), None);
}

#[test]
fn m_opens_the_menu_on_press_only() {
    let base = BASE;
    let mut state = InputState::new();
    assert_eq!(state.handle_key(key(KeyCode::Char('m')), at(base, 0)), Some(Action::Menu));
    assert_eq!(state.handle_key(release(KeyCode::Char('m')), at(base, 0)), None);
}

/// AI matches remap the arrow keys to the left paddle.
#[test]
fn arrow_keys_steer_the_left_paddle_in_ai_matches() {
    let base = BASE;
    let mut state = InputState::new();
    state.start_match(Opponent::Ai(Difficulty::Easy));
    assert_eq!(
        state.handle_key(key(KeyCode::Up), at(base, 0)),
        Some(send(Side::Left, Some(Direction::Up), false))
    );
    assert_eq!(
        state.handle_key(key(KeyCode::Down), at(base, 10)),
        Some(send(Side::Left, Some(Direction::Down), false))
    );
}

/// Two-player matches keep the arrows on the right paddle.
#[test]
fn arrow_keys_stay_on_the_right_paddle_in_two_player_matches() {
    let base = BASE;
    let mut state = InputState::new();
    state.start_match(Opponent::TwoPlayer);
    assert_eq!(
        state.handle_key(key(KeyCode::Up), at(base, 0)),
        Some(send(Side::Right, Some(Direction::Up), false))
    );
}

/// Starting a match drops stale held-key bookkeeping silently.
#[test]
fn start_match_clears_held_keys_silently() {
    let base = BASE;
    let mut state = InputState::new();
    state.handle_key(key(KeyCode::Char('w')), at(base, 0));
    state.handle_key(key(KeyCode::Up), at(base, 0));
    state.start_match(Opponent::Ai(Difficulty::Hard));
    assert!(state.sweep(at(base, 10_000)).is_empty());
    assert_eq!(
        state.handle_key(key(KeyCode::Up), at(base, 10_050)),
        Some(send(Side::Left, Some(Direction::Up), false))
    );
}

#[test]
fn folding_averages_the_estimate_with_the_new_sample() {
    assert_eq!(fold_interval(None, 30_000_000), Some(30_000_000));
    assert_eq!(fold_interval(Some(30_000_000), 40_000_000), Some(35_000_000));
    // Rounded down to the nanosecond, and no overflow at the top.
    assert_eq!(fold_interval(Some(3), 4), Some(3));
    assert_eq!(fold_interval(Some(u64::MAX), u64::MAX), Some(u64::MAX));
}

#[test]
fn release_window_scales_and_clamps_the_interval() {
    assert_eq!(release_window(None), RELEASE_TIMEOUT);
    assert_eq!(release_window(Some(30_000_000)), 75_000_000);
    assert_eq!(release_window(Some(1_000_000)), RELEASE_TIMEOUT_MIN);
    assert_eq!(release_window(Some(100_000_000)), RELEASE_TIMEOUT);
    assert_eq!(release_window(Some(u64::MAX)), RELEASE_TIMEOUT);
}

/// A repeat of an already-confirmed key sends nothing.
#[test]
fn repeats_of_a_confirmed_key_send_nothing() {
    let base = BASE;
    let mut state = InputState::new();
    state.handle_key(key(KeyCode::Char('w')), at(base, 0));
    state.handle_key(key(KeyCode::Char('w')), at(base, 500));
    assert_eq!(state.handle_key(key(KeyCode::Char('w')), at(base, 530)), None);
}

/// A clock that reads earlier than a key's last event counts as no
/// silence at all.
#[test]
fn earlier_clock_reading_expires_nothing() {
    let base = BASE;
    let mut state = InputState::new();
    state.handle_key(key(KeyCode::Char('w')), at(base, 1000));
    assert!(state.sweep(at(base, 0)).is_empty());
}

/// A repeat of a key whose confirmed hold is already reported stays
/// silent, even while the other key of the side wins the tie.
#[test]
fn repeat_of_a_held_key_behind_the_tie_breaker_is_silent() {
    let base = BASE;
    let mut state = InputState::new();
    state.handle_key(key(KeyCode::Char('w')), at(base, 0));
    state.handle_key(key(KeyCode::Char('s')), at(base, 10));
    assert_eq!(state.handle_key(key(KeyCode::Char('w')), at(base, 500)), None);
}
