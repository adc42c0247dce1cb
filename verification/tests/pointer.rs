// Pointer-mode frames: click-to-move, the screen-to-world flip of the
// vertical axis, normalized travel toward the target, and arrival
// within one world unit. Coordinates are fixed-point sub-units, 1000
// per world unit.

use player_motion::move_player::MovePlayerSystem;
use player_motion::move_player::SpatialTransform;
use player_motion::player::InputState;
use player_motion::player::PlayerComponent;
use player_motion::player::PlayerState;

fn mouse_player(speed: i64) -> PlayerComponent {
    PlayerComponent { speed, state: PlayerState::Standing, input_state: InputState::Mouse }
}

#[test]
fn click_resolves_world_target_with_flipped_y() {
    let mut sys = MovePlayerSystem::default();
    // Zero speed: the click only records the target this frame.
    let mut player = mouse_player(0);
    let mut tr = SpatialTransform { x: 0, y: 0, z: 0 };

    // Screen height 600, pointer at (50, 500): world target (50, 100).
    let events = sys.run(
        &mut player,
        &mut tr,
        1_000,
        0,
        0,
        true,
        Some((50_000, 500_000)),
        600_000,
    );
    assert_eq!(sys.target_location(), Some((50_000, 100_000)));
    assert_eq!(player.state, PlayerState::Moving);
    assert_eq!(events, vec![PlayerState::Moving]);
    assert_eq!((tr.x, tr.y), (0, 0));
}

#[test]
fn fast_walker_arrives_and_clears_target() {
    let mut sys = MovePlayerSystem::default();
    // 100 units/s, 1 s frames, target 100 units to the right.
    let mut player = mouse_player(100_000);
    let mut tr = SpatialTransform { x: 0, y: 0, z: 0 };

    // The click frame already travels: a whole step of 100 units lands
    // exactly on the target, which is within the one-unit arrival
    // threshold, so the walk starts and ends in the same frame.
    let events = sys.run(
        &mut player,
        &mut tr,
        1_000,
        0,
        0,
        true,
        Some((100_000, 600_000)),
        600_000,
    );
    assert_eq!((tr.x, tr.y), (100_000, 0));
    assert_eq!(player.state, PlayerState::Standing);
    assert_eq!(sys.target_location(), None);
    assert_eq!(events, vec![PlayerState::Moving, PlayerState::Standing]);

    // With the order cleared, later frames do not move at all.
    let events = sys.run(&mut player, &mut tr, 1_000, 0, 0, false, None, 600_000);
    assert_eq!((tr.x, tr.y), (100_000, 0));
    assert_eq!(player.state, PlayerState::Standing);
    assert!(events.is_empty());
}

#[test]
fn slow_walker_converges_then_stands() {
    let mut sys = MovePlayerSystem::default();
    // 33 units/s toward a target 100 units away: 33, 66, 99 — and the
    // remaining unit is exactly the arrival threshold.
    let mut player = mouse_player(33_000);
    let mut tr = SpatialTransform { x: 0, y: 0, z: 0 };

    let events = sys.run(
        &mut player,
        &mut tr,
        1_000,
        0,
        0,
        true,
        Some((100_000, 600_000)),
        600_000,
    );
    assert_eq!((tr.x, tr.y), (33_000, 0));
    assert_eq!(player.state, PlayerState::Moving);
    assert_eq!(events, vec![PlayerState::Moving]);

    let events = sys.run(&mut player, &mut tr, 1_000, 0, 0, false, None, 600_000);
    assert_eq!((tr.x, tr.y), (66_000, 0));
    assert!(events.is_empty());

    let events = sys.run(&mut player, &mut tr, 1_000, 0, 0, false, None, 600_000);
    assert_eq!((tr.x, tr.y), (99_000, 0));
    assert_eq!(player.state, PlayerState::Standing);
    assert_eq!(sys.target_location(), None);
    assert_eq!(events, vec![PlayerState::Standing]);

    let events = sys.run(&mut player, &mut tr, 1_000, 0, 0, false, None, 600_000);
    assert_eq!((tr.x, tr.y), (99_000, 0));
    assert!(events.is_empty());
}

#[test]
fn travel_is_normalized_along_the_direction() {
    let mut sys = MovePlayerSystem::default();
    // Target 50 units away on a 3-4-5 diagonal, 5 units/s for 1 s: the
    // step splits 3:4 between the axes.
    let mut player = mouse_player(5_000);
    let mut tr = SpatialTransform { x: 0, y: 0, z: 0 };

    let events = sys.run(
        &mut player,
        &mut tr,
        1_000,
        0,
        0,
        true,
        Some((30_000, 560_000)),
        600_000,
    );
    assert_eq!(sys.target_location(), Some((30_000, 40_000)));
    assert_eq!((tr.x, tr.y), (3_000, 4_000));
    assert_eq!(player.state, PlayerState::Moving);
    assert_eq!(events, vec![PlayerState::Moving]);
}

#[test]
fn click_on_own_position_arrives_immediately() {
    let mut sys = MovePlayerSystem::default();
    let mut player = mouse_player(100_000);
    let mut tr = SpatialTransform { x: 10_000, y: 20_000, z: 0 };

    // The resolved target coincides with the position exactly: there
    // is no direction to move in, and the zero distance counts as
    // arrival in the same frame.
    let events = sys.run(
        &mut player,
        &mut tr,
        1_000,
        0,
        0,
        true,
        Some((10_000, 580_000)),
        600_000,
    );
    assert_eq!((tr.x, tr.y), (10_000, 20_000));
    assert_eq!(player.state, PlayerState::Standing);
    assert_eq!(sys.target_location(), None);
    assert_eq!(events, vec![PlayerState::Moving, PlayerState::Standing]);
}

#[test]
fn click_without_a_pointer_position_clears_the_order() {
    let mut sys = MovePlayerSystem::default();
    let mut player = mouse_player(10_000);
    let mut tr = SpatialTransform { x: 0, y: 0, z: 0 };

    sys.run(&mut player, &mut tr, 1_000, 0, 0, true, Some((100_000, 600_000)), 600_000);
    assert!(sys.target_location().is_some());

    // A pressed button with no known pointer position overwrites the
    // order with nothing; the player keeps its Moving flag but has
    // nowhere to go.
    let events = sys.run(&mut player, &mut tr, 1_000, 0, 0, true, None, 600_000);
    assert_eq!(sys.target_location(), None);
    assert_eq!(player.state, PlayerState::Moving);
    assert!(events.is_empty());
    let x_before = tr.x;
    let events = sys.run(&mut player, &mut tr, 1_000, 0, 0, false, None, 600_000);
    assert_eq!(tr.x, x_before);
    assert!(events.is_empty());
}

#[test]
fn just_over_a_unit_from_the_target_is_not_arrival() {
    let mut sys = MovePlayerSystem::default();
    // Target 100.001 units away at 33 units/s: after three frames the
    // walker is 1.001 units short, a hair beyond the one-unit
    // threshold, so the order stays in flight.
    let mut player = mouse_player(33_000);
    let mut tr = SpatialTransform { x: 0, y: 0, z: 0 };

    sys.run(&mut player, &mut tr, 1_000, 0, 0, true, Some((100_001, 600_000)), 600_000);
    sys.run(&mut player, &mut tr, 1_000, 0, 0, false, None, 600_000);
    let events = sys.run(&mut player, &mut tr, 1_000, 0, 0, false, None, 600_000);
    assert_eq!((tr.x, tr.y), (99_000, 0));
    assert_eq!(player.state, PlayerState::Moving);
    assert_eq!(sys.target_location(), Some((100_001, 0)));
    assert!(events.is_empty());
}
