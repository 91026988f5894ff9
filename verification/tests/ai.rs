use pong_core::ai::{ai_profile, AiProfile, Perception, Prediction};
use pong_core::Difficulty;

#[test]
fn profiles_match_the_difficulty_table() {
    assert_eq!(ai_profile(Difficulty::Easy), AiProfile { delay_ticks: 12, prediction: Prediction::TrackOnly });
    assert_eq!(ai_profile(Difficulty::Normal), AiProfile { delay_ticks: 6, prediction: Prediction::Linear });
    assert_eq!(ai_profile(Difficulty::Hard), AiProfile { delay_ticks: 2, prediction: Prediction::Trajectory });
}

/// Hard has delay 2: a fresh change of the ball's height is only seen
/// two ticks later.
#[test]
fn perception_hides_recent_ball_movement() {
    let mut perception = Perception::new(2);
    assert_eq!(perception.observe(10, true).perceived, 10);
    assert_eq!(perception.observe(50, true).perceived, 10);
    assert_eq!(perception.observe(50, true).perceived, 10);
    assert_eq!(perception.observe(50, true).perceived, 50);
}

#[test]
fn no_delay_sees_the_present() {
    let mut perception = Perception::new(0);
    assert_eq!(perception.observe(1, false).perceived, 1);
    assert_eq!(perception.observe(2, false).perceived, 2);
}

/// A new approach leg begins only when the ball turns toward the AI.
#[test]
fn approach_legs_begin_when_the_ball_turns_toward_the_ai() {
    let mut perception = Perception::new(6);
    assert!(perception.observe(0u8, true).new_approach);
    assert!(!perception.observe(0u8, true).new_approach);
    assert!(!perception.observe(0u8, false).new_approach);
    assert!(perception.observe(0u8, true).new_approach);
}
