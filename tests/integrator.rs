use platformer::actions::{ButtonState, InputSnapshot, PlatformerAction};
use platformer::integrator::{
    frame_displacement, horizontal_direction, horizontal_displacement,
    horizontal_displacement_over, jump_height, vertical_displacement, Displacement, MotionConfig,
};
use platformer::motion::{Frame, PlayerMotion};
use platformer::movement::MovementState;

fn held() -> ButtonState {
    ButtonState { pressed: true, just_pressed: false, just_released: false }
}

fn released() -> ButtonState {
    ButtonState { pressed: false, just_pressed: false, just_released: true }
}

fn walking(right: bool, left: bool) -> InputSnapshot {
    let mut i = InputSnapshot::idle();
    i.right = if right { held() } else { ButtonState::released() };
    i.left = if left { held() } else { ButtonState::released() };
    i
}

#[test]
fn snapshot_reads_actions() {
    let mut i = InputSnapshot::idle();
    i.left = released();
    i.jump = ButtonState { pressed: true, just_pressed: true, just_released: false };
    assert!(i.just_released(PlatformerAction::Left));
    assert!(!i.pressed(PlatformerAction::Left));
    assert!(i.pressed(PlatformerAction::Jump));
    assert!(i.just_pressed(PlatformerAction::Jump));
    assert!(!i.pressed(PlatformerAction::Dash));
    assert_eq!(i.button(PlatformerAction::Menus), ButtonState::released());
}

#[test]
fn right_held_left_released_per_frame() {
    let mut i = walking(true, false);
    i.left = released();
    assert_eq!(horizontal_direction(&i), 1);
    assert_eq!(horizontal_displacement(&i, 100), 100);
}

#[test]
fn right_held_left_released_per_second() {
    let mut i = walking(true, false);
    i.left = released();
    assert_eq!(horizontal_displacement_over(&i, 100, 1000), 100);
    assert_eq!(horizontal_displacement_over(&i, 100, 500), 50);
    assert_eq!(horizontal_displacement_over(&i, 100, 16), 1);
    assert_eq!(horizontal_displacement_over(&walking(false, true), 100, 16), -1);
    assert_eq!(horizontal_displacement_over(&i, u32::MAX, u32::MAX), 18446744065119617);
}

#[test]
fn opposite_or_no_direction_is_still() {
    assert_eq!(horizontal_displacement(&walking(true, true), 100), 0);
    assert_eq!(horizontal_displacement(&walking(false, false), 100), 0);
    assert_eq!(horizontal_displacement(&walking(false, true), 100), -100);
    assert_eq!(horizontal_displacement_over(&walking(true, true), 100, 1000), 0);
}

#[test]
fn jump_height_eases_out() {
    assert_eq!(jump_height(6400, 0, 500), 0);
    assert_eq!(jump_height(6400, 100, 500), 2304);
    assert_eq!(jump_height(6400, 250, 500), 4800);
    assert_eq!(jump_height(6400, 500, 500), 6400);
    assert_eq!(jump_height(6400, 10_000, 500), 6400);
    assert_eq!(jump_height(6400, 3, 0), 6400);
    assert_eq!(jump_height(100, 1, 3), 55);
    assert_eq!(jump_height(u32::MAX, u64::MAX, u32::MAX), u32::MAX);
}

#[test]
fn vertical_by_state() {
    let config = MotionConfig::default();
    assert_eq!(vertical_displacement(&MovementState::Idle, 0, 0, 0, &config), -10);
    assert_eq!(vertical_displacement(&MovementState::Falling, 0, 0, 0, &config), -1000);
    let jumping = MovementState::Jumping { started_at: 0 };
    assert_eq!(vertical_displacement(&jumping, 250, 0, 0, &config), 4800);
    assert_eq!(vertical_displacement(&jumping, 250, 1000, 5000, &config), 800);
    assert_eq!(vertical_displacement(&jumping, 500, -200, 6300, &config), -100);
}

#[test]
fn frame_displacement_combines_axes() {
    let config = MotionConfig::default();
    let d = frame_displacement(&MovementState::Falling, 0, 0, 0, &walking(false, true), &config);
    assert_eq!(d, Displacement { x: -100, y: -1000 });
}

#[test]
fn default_tuning() {
    let c = MotionConfig::default();
    assert_eq!(c.movement_speed, 100);
    assert_eq!(c.idle_bias, 10);
    assert_eq!(c.fall_speed, 1000);
    assert_eq!(c.jump_apex, 6400);
    assert_eq!(c.rise_duration_ms, 500);
}

#[test]
fn jump_rises_from_takeoff_height() {
    let config = MotionConfig::default();
    let mut p = PlayerMotion::default();
    let mut press = InputSnapshot::idle();
    press.jump = ButtonState { pressed: true, just_pressed: true, just_released: false };
    let d = p.step(&Frame { input: press, grounded: true, now: 1000, delta_ms: 16, y: 300 }, &config);
    assert_eq!(d, Displacement { x: 0, y: 0 });
    assert_eq!(p.model().takeoff_y, 300);

    let mut hold = InputSnapshot::idle();
    hold.jump = held();
    let d = p.step(&Frame { input: hold, grounded: false, now: 1100, delta_ms: 100, y: 300 }, &config);
    assert_eq!(p.jump_elapsed(), 100);
    assert_eq!(d, Displacement { x: 0, y: 2304 });

    let d = p.step(&Frame { input: hold, grounded: false, now: 1250, delta_ms: 150, y: 2604 }, &config);
    assert_eq!(p.jump_elapsed(), 250);
    assert_eq!(d, Displacement { x: 0, y: 4800 + 300 - 2604 });
    assert_eq!(p.model().takeoff_y, 300);
}

#[test]
fn idle_frame_presses_into_ground() {
    let config = MotionConfig::default();
    let mut p = PlayerMotion::default();
    let d = p.step(&Frame { input: walking(true, false), grounded: true, now: 5, delta_ms: 5, y: 0 }, &config);
    assert_eq!(d, Displacement { x: 100, y: -10 });
}
