use pong_core::snapshots::{merge_drained, Drained};
use pong_core::GameEvent;

/// The state part of a snapshot, for these tests.
#[derive(Debug, Clone, Copy, PartialEq)]
struct State {
    ball_x: f32,
    ball_y: f32,
}

fn snap(ball_x: f32, events: Vec<GameEvent>) -> Drained<State> {
    Drained { state: State { ball_x, ball_y: 30.0 }, events }
}

/// Merging must not lose events: they ride the intermediate snapshots
/// that would otherwise be discarded.
#[test]
fn drain_latest_merges_events_of_dropped_snapshots() {
    let queued = vec![
        snap(70.0, vec![GameEvent::PaddleHit]),
        snap(70.0, vec![]),
        snap(70.0, vec![GameEvent::PaddleHit, GameEvent::PointScored]),
    ];
    let merged = merge_drained(queued).expect("queued snapshots");
    assert_eq!(
        merged.events,
        vec![GameEvent::PaddleHit, GameEvent::PaddleHit, GameEvent::PointScored]
    );
    // Nothing queued afterwards: nothing to merge.
    assert!(merge_drained::<State>(Vec::new()).is_none());
}

#[test]
fn merge_keeps_the_newest_state() {
    let queued = vec![snap(1.0, vec![GameEvent::GameOver]), snap(2.0, vec![]), snap(3.0, vec![])];
    let merged = merge_drained(queued).expect("queued snapshots");
    assert_eq!(merged.state, State { ball_x: 3.0, ball_y: 30.0 });
    assert_eq!(merged.events, vec![GameEvent::GameOver]);
}

#[test]
fn a_single_snapshot_comes_back_unchanged() {
    let merged = merge_drained(vec![snap(5.0, vec![GameEvent::PointScored])]).expect("one snapshot");
    assert_eq!(merged.state, State { ball_x: 5.0, ball_y: 30.0 });
    assert_eq!(merged.events, vec![GameEvent::PointScored]);
}
