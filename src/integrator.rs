//! The position integrator: one frame's displacement from the movement
//! state, the jump stopwatch and the input.
//!
//! Lengths are integer units chosen by the caller (for instance hundredths
//! of a world unit). Unless a function says otherwise a speed is the
//! displacement of one frame; `horizontal_displacement_over` takes a speed
//! per second and the frame's duration instead.
use vstd::prelude::*;

use crate::actions::{InputSnapshot, PlatformerAction};
use crate::movement::{MovementState, APEX_TIMEOUT_MS};

verus! {

/// The tuning of the integrator.
#[derive(Clone, Copy, Debug, PartialEq, Eq, Structural)]
pub struct MotionConfig {
    /// Horizontal units moved in one frame while a direction is held.
    pub movement_speed: u32,
    /// Downward units requested each frame while idle, which keeps the
    /// controller in contact with the ground so that the ground sensor
    /// stays reliable.
    pub idle_bias: u32,
    /// Downward units moved in one frame while falling.
    pub fall_speed: u32,
    /// Height above the take-off point that a jump rises to.
    pub jump_apex: u32,
    /// Milliseconds a jump takes to reach its apex.
    pub rise_duration_ms: u32,
}

impl Default for MotionConfig {
    /// The standard tuning, in hundredths of a world unit per frame; the
    /// rise takes as long as the apex timeout allows.
    fn default() -> (r: MotionConfig)
        ensures
            r.movement_speed == 100,
            r.idle_bias == 10,
            r.fall_speed == 1000,
            r.jump_apex == 6400,
            r.rise_duration_ms == APEX_TIMEOUT_MS,
    {
        MotionConfig {
            movement_speed: 100,
            idle_bias: 10,
            fall_speed: 1000,
            jump_apex: 6400,
            rise_duration_ms: 500,
        }
    }
}

/// A displacement requested from the kinematic controller, `y` pointing up.
#[derive(Clone, Copy, Debug, PartialEq, Eq, Structural)]
pub struct Displacement {
    pub x: i64,
    pub y: i64,
}

/// The held horizontal direction: 1 for right, -1 for left, 0 for both or
/// neither.
pub open spec fn direction(input: InputSnapshot) -> int {
    (if input.right.pressed { 1int } else { 0int }) - (if input.left.pressed { 1int } else { 0int })
}

/// The height above take-off that a jump has eased to after `elapsed`
/// milliseconds. The rise fraction `f` is `elapsed / rise` clamped to
/// [0, 1] (1 when `rise` is zero), eased out as `f * (2 - f)` so that the
/// rise slows to a stop at the apex, and rounded down.
pub open spec fn eased_height(apex: u32, elapsed: u64, rise: u32) -> int {
    if rise == 0 {
        apex as int
    } else {
        let c: int = if elapsed < rise { elapsed as int } else { rise as int };
        (apex * (2 * c * rise - c * c)) / (rise * rise)
    }
}

/// The vertical displacement of a frame spent in `state`, for a character
/// at height `y` whose jump, if any, took off at height `takeoff_y` and has
/// risen for `jump_elapsed` milliseconds.
pub open spec fn vertical(
    state: MovementState,
    jump_elapsed: u64,
    takeoff_y: i32,
    y: i32,
    config: MotionConfig,
) -> int {
    match state {
        MovementState::Idle => -config.idle_bias,
        MovementState::Jumping { .. } => takeoff_y + eased_height(
            config.jump_apex,
            jump_elapsed,
            config.rise_duration_ms,
        ) - y,
        MovementState::Falling => -config.fall_speed,
    }
}

/// The held horizontal direction: 1 for right, -1 for left, 0 for both or
/// neither.
pub fn horizontal_direction(input: &InputSnapshot) -> (r: i64)
    ensures
        r == direction(*input),
{
    let right: i64 = if input.pressed(PlatformerAction::Right) { 1 } else { 0 };
    let left: i64 = if input.pressed(PlatformerAction::Left) { 1 } else { 0 };
    right - left
}

/// `magnitude` in the direction `dir`.
fn scale_by_direction(dir: i64, magnitude: u64) -> (r: i64)
    requires
        -1 <= dir <= 1,
        magnitude <= i64::MAX,
    ensures
        r == dir * magnitude,
{
    if dir == 1 {
        assert(dir * magnitude == magnitude) by (nonlinear_arith)
            requires
                dir == 1,
        ;
        magnitude as i64
    } else if dir == -1 {
        assert(dir * magnitude == -magnitude) by (nonlinear_arith)
            requires
                dir == -1,
        ;
        -(magnitude as i64)
    } else {
        assert(dir * magnitude == 0) by (nonlinear_arith)
            requires
                dir == 0,
        ;
        0
    }
}

/// The horizontal displacement of one frame, `speed` being the units moved
/// in a frame.
pub fn horizontal_displacement(input: &InputSnapshot, speed: u32) -> (r: i64)
    ensures
        r == direction(*input) * speed,
{
    scale_by_direction(horizontal_direction(input), speed as u64)
}

/// The horizontal displacement over `delta_ms` milliseconds at
/// `speed_per_second` units per second, the distance rounded down.
pub fn horizontal_displacement_over(input: &InputSnapshot, speed_per_second: u32, delta_ms: u32) -> (r:
    i64)
    ensures
        r == direction(*input) * ((speed_per_second * delta_ms) / 1000),
{
    let s: u64 = speed_per_second as u64;
    let d: u64 = delta_ms as u64;
    assert(s * d <= u32::MAX * u32::MAX) by (nonlinear_arith)
        requires
            s <= u32::MAX,
            d <= u32::MAX,
    ;
    let distance: u64 = (s * d) / 1000;
    assert(distance <= u32::MAX * u32::MAX / 1000);
    scale_by_direction(horizontal_direction(input), distance)
}

/// The height above take-off that a jump has eased to after `elapsed`
/// milliseconds of a `rise`-millisecond rise to `apex`.
pub fn jump_height(apex: u32, elapsed: u64, rise: u32) -> (r: u32)
    ensures
        r == eased_height(apex, elapsed, rise),
        r <= apex,
        elapsed >= rise ==> r == apex,
        elapsed == 0 ==> r == if rise == 0 { apex } else { 0 },
{
    if rise == 0 {
        return apex;
    }
    let r: u128 = rise as u128;
    let c: u128 = if elapsed < rise as u64 { elapsed as u128 } else { r };
    let a: u128 = apex as u128;
    assert(c * c <= c * r && c * r <= r * r && r * r <= u32::MAX * u32::MAX) by (nonlinear_arith)
        requires
            c <= r,
            r <= u32::MAX,
    ;
    let cr: u128 = c * r;
    let lift: u128 = 2 * cr - c * c;
    assert(lift <= r * r) by (nonlinear_arith)
        requires
            lift == 2 * (c * r) - c * c,
    ;
    assert(a * lift <= a * (r * r) && a * (r * r) <= u32::MAX * (u32::MAX * u32::MAX)) by (nonlinear_arith)
        requires
            lift <= r * r,
            a <= u32::MAX,
            r <= u32::MAX,
    ;
    let rr: u128 = r * r;
    assert(rr > 0) by (nonlinear_arith)
        requires
            rr == r * r,
            r > 0,
    ;
    let h: u128 = (a * lift) / rr;
    assert(h <= a) by (nonlinear_arith)
        requires
            h == (a * lift) / (rr as int),
            a * lift <= a * rr,
            rr > 0,
    ;
    assert(h == eased_height(apex, elapsed, rise)) by {
        let ci: int = if elapsed < rise { elapsed as int } else { rise as int };
        assert(c == ci);
        assert(lift == 2 * ci * rise - ci * ci) by (nonlinear_arith)
            requires
                lift == 2 * (c * r) - c * c,
                c == ci,
                r == rise,
        ;
        assert(rr == rise * rise);
    }
    assert(c == r ==> lift == rr && a * lift == a * rr) by (nonlinear_arith)
        requires
            lift == 2 * (c * r) - c * c,
            rr == r * r,
    ;
    assert(c == r ==> h == a) by (nonlinear_arith)
        requires
            h == (a * lift) / (rr as int),
            c == r ==> a * lift == a * rr,
            rr > 0,
    ;
    assert(c == 0 ==> h == 0) by (nonlinear_arith)
        requires
            h == (a * lift) / (rr as int),
            lift == 2 * (c * r) - c * c,
            rr > 0,
    ;
    h as u32
}

/// The vertical displacement of a frame spent in `state`.
pub fn vertical_displacement(
    state: &MovementState,
    jump_elapsed: u64,
    takeoff_y: i32,
    y: i32,
    config: &MotionConfig,
) -> (r: i64)
    ensures
        r == vertical(*state, jump_elapsed, takeoff_y, y, *config),
{
    match state {
        MovementState::Idle => -(config.idle_bias as i64),
        MovementState::Jumping { .. } => {
            let h = jump_height(config.jump_apex, jump_elapsed, config.rise_duration_ms);
            takeoff_y as i64 + h as i64 - y as i64
        },
        MovementState::Falling => -(config.fall_speed as i64),
    }
}

/// The displacement of a frame spent in `state`: horizontal movement at the
/// configured per-frame speed, vertical movement as `vertical` gives it.
pub fn frame_displacement(
    state: &MovementState,
    jump_elapsed: u64,
    takeoff_y: i32,
    y: i32,
    input: &InputSnapshot,
    config: &MotionConfig,
) -> (r: Displacement)
    ensures
        r.x == direction(*input) * config.movement_speed,
        r.y == vertical(*state, jump_elapsed, takeoff_y, y, *config),
{
    Displacement {
        x: horizontal_displacement(input, config.movement_speed),
        y: vertical_displacement(state, jump_elapsed, takeoff_y, y, config),
    }
}

} // verus!
