use pong_core::frontend::{beep_frequency_hz, footer_hint, Frontend, Screen};
use pong_core::{
    BallSpeedMode, Difficulty, Direction, GameEvent, GameOptions, GamePhase, InputEvent, Key,
    KeyCode, KeyKind, Opponent, Score, Side,
};

fn key(code: KeyCode) -> Key {
    Key { code, kind: KeyKind::Press, ctrl: false }
}

const MS: u64 = 1_000_000;

fn in_match(frontend: &Frontend) -> bool {
    matches!(frontend.screen(), Screen::Match)
}

#[test]
fn starts_on_the_menu_and_enter_starts_the_match() {
    let mut frontend = Frontend::new();
    assert!(!in_match(&frontend));
    let step = frontend.on_key(key(KeyCode::Enter), 0, GamePhase::Waiting);
    assert_eq!(step.sends, vec![InputEvent::StartMatch(GameOptions::default())]);
    assert!(!step.quit);
    assert!(in_match(&frontend));
    assert!(!frontend.ai_opponent());
}

#[test]
fn menu_choices_travel_with_the_start_event_and_remap_the_arrows() {
    let mut frontend = Frontend::new();
    frontend.on_key(key(KeyCode::Right), 0, GamePhase::Waiting);
    frontend.on_key(key(KeyCode::Down), 0, GamePhase::Waiting);
    frontend.on_key(key(KeyCode::Left), 0, GamePhase::Waiting);
    let step = frontend.on_key(key(KeyCode::Enter), 0, GamePhase::Waiting);
    assert_eq!(
        step.sends,
        vec![InputEvent::StartMatch(GameOptions {
            opponent: Opponent::Ai(Difficulty::Easy),
            ball_speed: BallSpeedMode::Slow,
        })]
    );
    assert!(frontend.ai_opponent());
    // In an AI match the arrows steer the left paddle.
    let step = frontend.on_key(key(KeyCode::Up), 10 * MS, GamePhase::Playing);
    assert_eq!(
        step.sends,
        vec![InputEvent::SetPaddleDirection { side: Side::Left, direction: Some(Direction::Up), held: false }]
    );
}

#[test]
fn q_quits_from_the_menu_and_from_the_match() {
    let mut frontend = Frontend::new();
    assert!(frontend.on_key(key(KeyCode::Char('q')), 0, GamePhase::Waiting).quit);
    frontend.on_key(key(KeyCode::Enter), 0, GamePhase::Waiting);
    let step = frontend.on_key(key(KeyCode::Esc), 0, GamePhase::Playing);
    assert!(step.quit);
    assert!(step.sends.is_empty());
}

#[test]
fn menu_key_is_honored_only_after_game_over() {
    let mut frontend = Frontend::new();
    frontend.on_key(key(KeyCode::Enter), 0, GamePhase::Waiting);
    let step = frontend.on_key(key(KeyCode::Char('m')), 0, GamePhase::Playing);
    assert!(step.sends.is_empty() && !step.quit);
    assert!(in_match(&frontend));
    frontend.on_key(key(KeyCode::Char('m')), 0, GamePhase::GameOver { winner: Side::Left });
    assert!(!in_match(&frontend));
}

#[test]
fn frames_expire_silent_keys_only_in_a_match() {
    let mut frontend = Frontend::new();
    assert!(frontend.on_frame(10_000 * MS).sends.is_empty());
    frontend.on_key(key(KeyCode::Enter), 0, GamePhase::Waiting);
    frontend.on_key(key(KeyCode::Char('w')), 0, GamePhase::Playing);
    assert!(frontend.on_frame(100 * MS).sends.is_empty());
    let step = frontend.on_frame(610 * MS);
    assert_eq!(
        step.sends,
        vec![InputEvent::SetPaddleDirection { side: Side::Left, direction: None, held: false }]
    );
    assert!(!step.quit);
}

#[test]
fn a_point_makes_the_score_blink_for_600_ms() {
    let mut frontend = Frontend::new();
    frontend.on_key(key(KeyCode::Enter), 0, GamePhase::Waiting);
    let start = 1_000 * MS;
    frontend.on_snapshot(Score { left: 0, right: 0 }, start);
    assert!(!frontend.score_flash(start));
    frontend.on_snapshot(Score { left: 1, right: 0 }, start);
    assert!(frontend.score_flash(start));
    assert!(frontend.score_flash(start + 119 * MS));
    assert!(!frontend.score_flash(start + 120 * MS));
    assert!(frontend.score_flash(start + 240 * MS));
    assert!(!frontend.score_flash(start + 600 * MS));
    // The same score again does not restart the flash.
    frontend.on_snapshot(Score { left: 1, right: 0 }, start + 700 * MS);
    assert!(!frontend.score_flash(start + 700 * MS));
}

#[test]
fn starting_a_match_clears_the_flash() {
    let mut frontend = Frontend::new();
    frontend.on_snapshot(Score { left: 2, right: 1 }, 0);
    assert!(frontend.score_flash(0));
    frontend.on_key(key(KeyCode::Enter), 0, GamePhase::Waiting);
    assert!(!frontend.score_flash(0));
    // The fresh match's first point flashes again.
    frontend.on_snapshot(Score { left: 1, right: 0 }, 10 * MS);
    assert!(frontend.score_flash(10 * MS));
}

#[test]
fn beeps_have_two_pitches() {
    assert_eq!(beep_frequency_hz(GameEvent::PaddleHit), 440);
    assert_eq!(beep_frequency_hz(GameEvent::PointScored), 440);
    assert_eq!(beep_frequency_hz(GameEvent::GameOver), 880);
}

#[test]
fn footer_hints_follow_the_opponent() {
    assert_eq!(footer_hint(true), "left: w/s ↑/↓  ·  restart: r  ·  menu: m  ·  quit: q");
    assert_eq!(
        footer_hint(false),
        "left: w/s  ·  right: ↑/↓  ·  restart: r  ·  menu: m  ·  quit: q"
    );
}
