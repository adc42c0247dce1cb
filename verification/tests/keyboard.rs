// Keyboard-mode frames: axis integration and the idempotent
// Standing/Moving transitions. Coordinates are fixed-point sub-units,
// 1000 per world unit.

use player_motion::move_player::MovePlayerSystem;
use player_motion::move_player::SpatialTransform;
use player_motion::player::InputState;
use player_motion::player::PlayerComponent;
use player_motion::player::PlayerState;

fn keyboard_player(speed: i64) -> PlayerComponent {
    PlayerComponent { speed, state: PlayerState::Standing, input_state: InputState::Keyboard }
}

#[test]
fn keyboard_idle_keeps_position_and_stops_once() {
    let mut sys = MovePlayerSystem::default();
    let mut player = keyboard_player(100_000);
    player.state = PlayerState::Moving;
    let mut tr = SpatialTransform { x: 7_000, y: -3_000, z: 42 };

    let events = sys.run(&mut player, &mut tr, 1_000, 0, 0, false, None, 0);
    assert_eq!((tr.x, tr.y, tr.z), (7_000, -3_000, 42));
    assert_eq!(player.state, PlayerState::Standing);
    assert_eq!(events, vec![PlayerState::Standing]);

    // The same still frame again never re-fires the transition.
    let events = sys.run(&mut player, &mut tr, 1_000, 0, 0, false, None, 0);
    assert_eq!((tr.x, tr.y, tr.z), (7_000, -3_000, 42));
    assert_eq!(player.state, PlayerState::Standing);
    assert!(events.is_empty());
}

#[test]
fn keyboard_axis_moves_by_speed_times_elapsed() {
    let mut sys = MovePlayerSystem::default();
    // 100 units/s for 1 s at full positive x-axis: +100 units.
    let mut player = keyboard_player(100_000);
    let mut tr = SpatialTransform { x: 0, y: 0, z: 0 };

    let events = sys.run(&mut player, &mut tr, 1_000, 1_000, 0, false, None, 0);
    assert_eq!((tr.x, tr.y), (100_000, 0));
    assert_eq!(player.state, PlayerState::Moving);
    assert_eq!(events, vec![PlayerState::Moving]);

    // A second driven frame moves again but fires nothing: the player
    // was already moving.
    let events = sys.run(&mut player, &mut tr, 1_000, 1_000, 0, false, None, 0);
    assert_eq!((tr.x, tr.y), (200_000, 0));
    assert_eq!(player.state, PlayerState::Moving);
    assert!(events.is_empty());
}

#[test]
fn keyboard_negative_axis_moves_backwards() {
    let mut sys = MovePlayerSystem::default();
    let mut player = keyboard_player(100_000);
    let mut tr = SpatialTransform { x: 0, y: 0, z: 0 };

    // Half deflection downwards for 1 s: -50 units on y.
    let events = sys.run(&mut player, &mut tr, 1_000, 0, -500, false, None, 0);
    assert_eq!((tr.x, tr.y), (0, -50_000));
    assert_eq!(player.state, PlayerState::Moving);
    assert_eq!(events, vec![PlayerState::Moving]);
}

#[test]
fn keyboard_axis_is_accepted_unclamped() {
    let mut sys = MovePlayerSystem::default();
    let mut player = keyboard_player(100_000);
    let mut tr = SpatialTransform { x: 0, y: 0, z: 0 };

    // An axis reading of 2.0 is out of the nominal range and is taken
    // as-is: double displacement.
    sys.run(&mut player, &mut tr, 1_000, 2_000, 0, false, None, 0);
    assert_eq!(tr.x, 200_000);
}

#[test]
fn keyboard_zero_elapsed_is_a_position_noop_but_still_reconciles() {
    let mut sys = MovePlayerSystem::default();
    let mut player = keyboard_player(100_000);
    player.state = PlayerState::Moving;
    let mut tr = SpatialTransform { x: 5, y: 6, z: 7 };

    // No time passed: no displacement, but the standing/moving
    // comparison still runs and reports the stop.
    let events = sys.run(&mut player, &mut tr, 0, 1_000, 1_000, false, None, 0);
    assert_eq!((tr.x, tr.y, tr.z), (5, 6, 7));
    assert_eq!(player.state, PlayerState::Standing);
    assert_eq!(events, vec![PlayerState::Standing]);
}

#[test]
fn keyboard_small_axis_truncates_to_rest() {
    let mut sys = MovePlayerSystem::default();
    // 1 sub-unit/s at a tiny axis deflection for 1 ms: the fixed-point
    // displacement truncates to zero, so the player counts as resting.
    let mut player = keyboard_player(1);
    player.state = PlayerState::Moving;
    let mut tr = SpatialTransform { x: 0, y: 0, z: 0 };

    let events = sys.run(&mut player, &mut tr, 1, 1, 0, false, None, 0);
    assert_eq!((tr.x, tr.y), (0, 0));
    assert_eq!(player.state, PlayerState::Standing);
    assert_eq!(events, vec![PlayerState::Standing]);
}
