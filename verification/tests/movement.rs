use platformer_core::components::EntityDirection;
use platformer_core::movement::{
    animation_state_for_speed, move_player, AnimationState, KeyState, ACCELERATION_MILLI,
    AIR_ACCELERATION_MILLI, FLOAT_HEIGHT_MILLI, JUMP_HEIGHT_MILLI, MOVEMENT_FACTOR_MILLI,
};

fn keys(left: bool, right: bool, sprint: bool, jump: bool) -> KeyState {
    KeyState { left, right, sprint, jump }
}

#[test]
fn idle_keys_give_zero_velocity_and_keep_facing() {
    let mut facing = EntityDirection::L;
    let mut jump_was_held = false;
    let cmd = move_player(&keys(false, false, false, false), true, &mut facing, &mut jump_was_held);
    assert_eq!(cmd.desired_velocity_x, 0);
    assert_eq!(facing, EntityDirection::L);
    assert!(!cmd.jump_requested);
}

#[test]
fn right_key_moves_right_at_base_speed() {
    let mut facing = EntityDirection::L;
    let mut jump_was_held = false;
    let cmd = move_player(&keys(false, true, false, false), true, &mut facing, &mut jump_was_held);
    assert_eq!(cmd.desired_velocity_x, MOVEMENT_FACTOR_MILLI);
    assert_eq!(facing, EntityDirection::R);
}

#[test]
fn left_key_moves_left_at_base_speed() {
    let mut facing = EntityDirection::R;
    let mut jump_was_held = false;
    let cmd = move_player(&keys(true, false, false, false), true, &mut facing, &mut jump_was_held);
    assert_eq!(cmd.desired_velocity_x, -MOVEMENT_FACTOR_MILLI);
    assert_eq!(facing, EntityDirection::L);
}

#[test]
fn sprint_triples_the_speed() {
    let mut facing = EntityDirection::R;
    let mut jump_was_held = false;
    let cmd = move_player(&keys(true, false, true, false), true, &mut facing, &mut jump_was_held);
    assert_eq!(cmd.desired_velocity_x, -150_000);
}

#[test]
fn right_takes_precedence_when_both_direction_keys_are_held() {
    let mut facing = EntityDirection::L;
    let mut jump_was_held = false;
    let cmd = move_player(&keys(true, true, false, false), true, &mut facing, &mut jump_was_held);
    assert_eq!(cmd.desired_velocity_x, MOVEMENT_FACTOR_MILLI);
    assert_eq!(facing, EntityDirection::R);
}

#[test]
fn tuning_constants_ride_along_on_every_command() {
    let mut facing = EntityDirection::R;
    let mut jump_was_held = false;
    let cmd = move_player(&keys(false, false, false, false), false, &mut facing, &mut jump_was_held);
    assert_eq!(cmd.float_height, FLOAT_HEIGHT_MILLI);
    assert_eq!(cmd.acceleration, ACCELERATION_MILLI);
    assert_eq!(cmd.air_acceleration, AIR_ACCELERATION_MILLI);
    assert_eq!(cmd.jump_height, JUMP_HEIGHT_MILLI);
}

#[test]
fn jump_fires_only_on_the_rising_edge_while_grounded() {
    let mut facing = EntityDirection::R;
    let mut jump_was_held = false;

    // Key newly pressed while grounded: the jump fires.
    let cmd = move_player(&keys(false, false, false, true), true, &mut facing, &mut jump_was_held);
    assert!(cmd.jump_requested);

    // Key still held: the jump must not repeat.
    let cmd = move_player(&keys(false, false, false, true), true, &mut facing, &mut jump_was_held);
    assert!(!cmd.jump_requested);

    // Key released, then pressed again: the jump fires anew.
    let cmd = move_player(&keys(false, false, false, false), true, &mut facing, &mut jump_was_held);
    assert!(!cmd.jump_requested);
    let cmd = move_player(&keys(false, false, false, true), true, &mut facing, &mut jump_was_held);
    assert!(cmd.jump_requested);
}

#[test]
fn jump_needs_ground_under_the_controller() {
    let mut facing = EntityDirection::R;
    let mut jump_was_held = false;
    let cmd = move_player(&keys(false, false, false, true), false, &mut facing, &mut jump_was_held);
    assert!(!cmd.jump_requested);
}

#[test]
fn facing_flips_only_when_the_intended_direction_differs() {
    let mut facing = EntityDirection::R;
    let mut jump_was_held = false;
    let inputs = [
        (false, false, EntityDirection::R),
        (true, false, EntityDirection::L),
        (true, false, EntityDirection::L),
        (false, false, EntityDirection::L),
        (false, true, EntityDirection::R),
        (true, true, EntityDirection::R),
    ];
    for (left, right, expected) in inputs {
        move_player(&keys(left, right, false, false), true, &mut facing, &mut jump_was_held);
        assert_eq!(facing, expected);
    }
}

#[test]
fn animation_state_thresholds() {
    assert_eq!(animation_state_for_speed(0), AnimationState::Idle);
    assert_eq!(animation_state_for_speed(99), AnimationState::Idle);
    assert_eq!(animation_state_for_speed(100), AnimationState::Walking);
    assert_eq!(animation_state_for_speed(79_999), AnimationState::Walking);
    assert_eq!(animation_state_for_speed(80_000), AnimationState::Running);
    assert_eq!(animation_state_for_speed(1_000_000), AnimationState::Running);
}
