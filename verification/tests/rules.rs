use pong_core::rules::{serve_angle_index, MatchState, PaddleIntent, TickPlan};
use pong_core::{
    BallSpeedMode, Difficulty, Direction, GameEvent, GameOptions, GamePhase, InputEvent, Opponent,
    Score, Side, SERVE_PAUSE_TICKS, WIN_SCORE,
};

/// Ticks through the serving pause; returns the launch plan.
fn serve(state: &mut MatchState) -> TickPlan {
    loop {
        let plan = state.tick();
        if plan != TickPlan::MovePaddles {
            return plan;
        }
    }
}

/// Plays points for `scorer` until the score reaches `points`.
fn score_points(state: &mut MatchState, scorer: Side, points: u32) {
    while match scorer {
        Side::Left => state.score().left,
        Side::Right => state.score().right,
    } < points
    {
        serve(state);
        state.point_scored(scorer);
    }
}

#[test]
fn new_match_starts_in_serving_pause() {
    let state = MatchState::new(42);
    assert!(matches!(
        state.phase(),
        GamePhase::Serving { ticks_left: SERVE_PAUSE_TICKS, .. }
    ));
    assert_eq!(state.score(), Score::default());
    assert_eq!(state.options(), GameOptions::default());
}

#[test]
fn waiting_backend_does_nothing_until_a_match_starts() {
    let mut state = MatchState::waiting(42);
    assert_eq!(state.phase(), GamePhase::Waiting);
    for _ in 0..200 {
        assert_eq!(state.tick(), TickPlan::MovePaddles);
    }
    assert_eq!(state.phase(), GamePhase::Waiting);
    let options = GameOptions { opponent: Opponent::Ai(Difficulty::Hard), ball_speed: BallSpeedMode::Slow };
    assert!(state.handle_input(InputEvent::StartMatch(options)));
    assert!(matches!(state.phase(), GamePhase::Serving { .. }));
    assert_eq!(state.options(), options);
}

#[test]
fn serving_countdown_decrements_per_tick() {
    let mut state = MatchState::new(42);
    let GamePhase::Serving { ticks_left: first, toward } = state.phase() else {
        panic!("expected serving phase");
    };
    assert_eq!(state.tick(), TickPlan::MovePaddles);
    assert_eq!(state.phase(), GamePhase::Serving { toward, ticks_left: first - 1 });
}

#[test]
fn serve_launches_after_exactly_the_pause() {
    for seed in 0..64 {
        let mut state = MatchState::new(seed);
        let GamePhase::Serving { toward, .. } = state.phase() else {
            panic!("expected serving phase");
        };
        for _ in 1..SERVE_PAUSE_TICKS {
            assert_eq!(state.tick(), TickPlan::MovePaddles);
        }
        match state.tick() {
            TickPlan::Launch { toward: launched, angle_index } => {
                assert_eq!(launched, toward);
                assert!(angle_index < 7);
            }
            other => panic!("expected a launch, got {other:?}"),
        }
        assert_eq!(state.phase(), GamePhase::Playing);
        assert_eq!(state.tick(), TickPlan::Play);
    }
}

#[test]
fn opening_serves_go_both_ways_across_seeds() {
    let mut left = false;
    let mut right = false;
    // The coin flip ends up reading bit 7 of the seed: cover it both ways.
    for seed in 0..400 {
        match MatchState::new(seed).phase() {
            GamePhase::Serving { toward: Side::Left, .. } => left = true,
            GamePhase::Serving { toward: Side::Right, .. } => right = true,
            other => panic!("unexpected phase {other:?}"),
        }
    }
    assert!(left && right);
}

#[test]
fn serve_angles_cover_the_whole_table() {
    let mut seen = [false; 7];
    for seed in 0..400 {
        let mut state = MatchState::new(seed);
        if let TickPlan::Launch { angle_index, .. } = serve(&mut state) {
            seen[angle_index] = true;
        }
    }
    assert!(seen.iter().all(|entry| *entry), "unreachable angles: {seen:?}");
}

#[test]
fn flat_serve_takes_two_of_eight_residues() {
    let mut counts = [0u32; 7];
    for roll in 0..800u64 {
        counts[serve_angle_index(roll)] += 1;
    }
    assert_eq!(counts, [200, 100, 100, 100, 100, 100, 100]);
    assert_eq!(serve_angle_index(7), 0);
    assert_eq!(serve_angle_index(15), 0);
    assert_eq!(serve_angle_index(13), 5);
}

#[test]
fn serve_after_a_point_goes_to_the_loser() {
    let mut state = MatchState::new(42);
    serve(&mut state);
    state.point_scored(Side::Right);
    assert_eq!(state.score().right, 1);
    assert_eq!(
        state.phase(),
        GamePhase::Serving { toward: Side::Left, ticks_left: SERVE_PAUSE_TICKS }
    );
    assert!(matches!(serve(&mut state), TickPlan::Launch { toward: Side::Left, .. }));
    assert_eq!(state.take_events(), vec![GameEvent::PointScored]);
}

#[test]
fn match_ends_when_win_score_is_reached() {
    let mut state = MatchState::new(42);
    score_points(&mut state, Side::Right, WIN_SCORE - 1);
    state.take_events();
    serve(&mut state);
    state.point_scored(Side::Right);
    assert_eq!(state.phase(), GamePhase::GameOver { winner: Side::Right });
    assert_eq!(state.score(), Score { left: 0, right: WIN_SCORE });
    // The deciding point announces the game over only.
    assert_eq!(state.take_events(), vec![GameEvent::GameOver]);
}

#[test]
fn simulation_freezes_while_game_over() {
    let mut state = MatchState::new(42);
    score_points(&mut state, Side::Left, WIN_SCORE);
    for _ in 0..10 {
        assert_eq!(state.tick(), TickPlan::Frozen);
    }
    assert_eq!(state.phase(), GamePhase::GameOver { winner: Side::Left });
}

#[test]
fn restart_resets_the_match_after_game_over() {
    let mut state = MatchState::new(42);
    score_points(&mut state, Side::Right, WIN_SCORE);
    state.handle_input(InputEvent::SetPaddleDirection {
        side: Side::Left,
        direction: Some(Direction::Down),
        held: true,
    });
    assert!(state.handle_input(InputEvent::Restart));
    assert!(matches!(state.phase(), GamePhase::Serving { .. }));
    assert_eq!(state.score(), Score::default());
    assert_eq!(state.intent(Side::Left), PaddleIntent { direction: None, held: false });
}

#[test]
fn restart_is_ignored_while_playing() {
    let mut state = MatchState::new(42);
    score_points(&mut state, Side::Left, 3);
    score_points(&mut state, Side::Right, 5);
    serve(&mut state);
    assert!(!state.handle_input(InputEvent::Restart));
    assert_eq!(state.score(), Score { left: 3, right: 5 });
    assert_eq!(state.phase(), GamePhase::Playing);
}

#[test]
fn start_match_discards_the_current_match() {
    let mut state = MatchState::new(42);
    score_points(&mut state, Side::Left, 4);
    let options = GameOptions { opponent: Opponent::Ai(Difficulty::Easy), ball_speed: BallSpeedMode::Mutable };
    assert!(state.handle_input(InputEvent::StartMatch(options)));
    assert_eq!(state.score(), Score::default());
    assert_eq!(state.options(), options);
    assert!(matches!(state.phase(), GamePhase::Serving { ticks_left: SERVE_PAUSE_TICKS, .. }));
}

#[test]
fn paddle_direction_is_recorded_per_side() {
    let mut state = MatchState::new(42);
    assert!(!state.handle_input(InputEvent::SetPaddleDirection {
        side: Side::Right,
        direction: Some(Direction::Up),
        held: true,
    }));
    assert_eq!(state.intent(Side::Right), PaddleIntent { direction: Some(Direction::Up), held: true });
    assert_eq!(state.intent(Side::Left), PaddleIntent { direction: None, held: false });
    assert!(!state.handle_input(InputEvent::Shutdown));
    assert_eq!(state.intent(Side::Right), PaddleIntent { direction: Some(Direction::Up), held: true });
}

#[test]
fn paddle_hits_count_per_round_and_are_reported() {
    let mut state = MatchState::new(42);
    serve(&mut state);
    state.paddle_hit();
    state.paddle_hit();
    assert_eq!(state.rally_hits(), 2);
    state.point_scored(Side::Left);
    assert_eq!(state.rally_hits(), 0);
    assert_eq!(
        state.take_events(),
        vec![GameEvent::PaddleHit, GameEvent::PaddleHit, GameEvent::PointScored]
    );
    // Taking the events consumes them.
    assert!(state.take_events().is_empty());
}

#[test]
fn random_draws_follow_the_match_stream() {
    let mut a = MatchState::new(9);
    let mut b = MatchState::new(9);
    assert_eq!(a.next_random(), b.next_random());
    assert_ne!(a.next_random(), 0);
}
