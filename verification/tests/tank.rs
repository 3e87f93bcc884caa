use tank_scene::input::KeyState;
use tank_scene::tank::{manage_tank_input, TankControllable, MOVE_SPEED_MILLI};

const LEFT: KeyState = KeyState { left: true, right: false, up: false };
const RIGHT: KeyState = KeyState { left: false, right: true, up: false };
const NONE: KeyState = KeyState { left: false, right: false, up: false };
const UP: KeyState = KeyState { left: false, right: false, up: true };

#[test]
fn left_turn_adds_two_degrees() {
    let mut tank = TankControllable { angle: 10 };
    let cmd = manage_tank_input(&mut tank, LEFT);
    assert_eq!(tank.angle, 12);
    assert_eq!(cmd.rotation_deg, 12);
    assert!(!cmd.advance);
}

#[test]
fn right_turn_removes_two_degrees() {
    let mut tank = TankControllable { angle: 10 };
    let cmd = manage_tank_input(&mut tank, RIGHT);
    assert_eq!(tank.angle, 8);
    assert_eq!(cmd.rotation_deg, 8);
}

#[test]
fn left_turn_wraps_past_360_to_zero() {
    let mut tank = TankControllable { angle: 360 };
    manage_tank_input(&mut tank, LEFT);
    assert_eq!(tank.angle, 0);
}

#[test]
fn left_turn_reaching_exactly_360_keeps_it() {
    // The wrap check is strict (> 360), so 358 + 2 stays at 360.
    let mut tank = TankControllable { angle: 358 };
    manage_tank_input(&mut tank, LEFT);
    assert_eq!(tank.angle, 360);
}

#[test]
fn right_turn_wraps_past_zero_to_360() {
    let mut tank = TankControllable { angle: 0 };
    manage_tank_input(&mut tank, RIGHT);
    assert_eq!(tank.angle, 360);
}

#[test]
fn right_turn_reaching_exactly_zero_keeps_it() {
    // The wrap check is strict (< 0), so 2 - 2 stays at 0.
    let mut tank = TankControllable { angle: 2 };
    manage_tank_input(&mut tank, RIGHT);
    assert_eq!(tank.angle, 0);
}

#[test]
fn left_key_wins_over_right_key() {
    let mut tank = TankControllable { angle: 10 };
    manage_tank_input(&mut tank, KeyState { left: true, right: true, up: false });
    assert_eq!(tank.angle, 12);
}

#[test]
fn no_turn_key_keeps_the_angle() {
    let mut tank = TankControllable { angle: 77 };
    let cmd = manage_tank_input(&mut tank, NONE);
    assert_eq!(tank.angle, 77);
    assert_eq!(cmd.rotation_deg, 77);
    assert!(!cmd.advance);
}

#[test]
fn forward_key_commands_an_advance() {
    let mut tank = TankControllable { angle: 30 };
    let cmd = manage_tank_input(&mut tank, UP);
    assert!(cmd.advance);
    assert_eq!(cmd.heading_deg, 120);
    assert_eq!(cmd.speed_milli, MOVE_SPEED_MILLI);
    assert_eq!(cmd.speed_milli, 250);
}

#[test]
fn angle_stays_in_range_under_many_steps() {
    let mut tank = TankControllable { angle: 0 };
    for _ in 0..500 {
        manage_tank_input(&mut tank, LEFT);
        assert!(0 <= tank.angle && tank.angle <= 360);
    }
    for _ in 0..500 {
        manage_tank_input(&mut tank, RIGHT);
        assert!(0 <= tank.angle && tank.angle <= 360);
    }
}
