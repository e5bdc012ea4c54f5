//! One player character's movement, stepped a frame at a time: the state
//! machine is run first, then the jump stopwatch follows it, then the
//! integrator turns the new state into the frame's displacement.
use vstd::prelude::*;

use crate::actions::InputSnapshot;
use crate::integrator::{direction, frame_displacement, vertical, Displacement, MotionConfig};
use crate::jump::{next_timer, JumpState};
use crate::movement::{next_state, MovementState, PlayerState};

verus! {

/// What a frame brings: the input snapshot, the ground sensor's reading
/// after the previous frame's move, the clock, the time since the previous
/// frame and the character's height.
#[derive(Clone, Copy, Debug, PartialEq, Eq, Structural)]
pub struct Frame {
    pub input: InputSnapshot,
    pub grounded: bool,
    /// Milliseconds on a monotonic clock.
    pub now: u64,
    /// Milliseconds since the previous frame.
    pub delta_ms: u64,
    /// The character's height, in the integrator's units.
    pub y: i32,
}

/// The movement data of a character: its state, the jump stopwatch, and
/// the height its current jump took off from.
#[derive(Clone, Copy, Debug, PartialEq, Eq, Structural)]
pub struct MotionModel {
    pub state: MovementState,
    pub jump_elapsed: u64,
    pub takeoff_y: i32,
}

/// The movement data after `frame`.
pub open spec fn step_model(m: MotionModel, frame: Frame) -> MotionModel {
    let s = next_state(m.state, frame.input, frame.grounded, frame.now);
    MotionModel {
        state: s,
        jump_elapsed: next_timer(m.state, s, m.jump_elapsed, frame.delta_ms),
        takeoff_y: if s is Jumping && s != m.state {
            frame.y
        } else {
            m.takeoff_y
        },
    }
}

/// A fault in how the surrounding application set the player up.
#[derive(Clone, Copy, Debug, PartialEq, Eq, Structural)]
pub enum SetupError {
    /// There is no player character.
    NoPlayer,
    /// There is more than one player character.
    MultiplePlayers,
    /// The player character has no ground sensor.
    MissingGroundSensor,
}

/// The ground reading of the one player character, from the readings of
/// every candidate player (`None` for a candidate without a ground sensor).
pub fn sole_ground_reading(readings: &Vec<Option<bool>>) -> (r: Result<bool, SetupError>)
    ensures
        readings@.len() == 0 <==> r == Err::<bool, SetupError>(SetupError::NoPlayer),
        readings@.len() > 1 <==> r == Err::<bool, SetupError>(SetupError::MultiplePlayers),
        readings@.len() == 1 && readings@[0] is None <==> r == Err::<bool, SetupError>(
            SetupError::MissingGroundSensor,
        ),
        readings@.len() == 1 && readings@[0] is Some ==> r == Ok::<bool, SetupError>(
            readings@[0]->0,
        ),
{
    if readings.len() == 0 {
        Err(SetupError::NoPlayer)
    } else if readings.len() > 1 {
        Err(SetupError::MultiplePlayers)
    } else {
        match readings[0] {
            Some(g) => Ok(g),
            None => Err(SetupError::MissingGroundSensor),
        }
    }
}

/// The movement of one player character.
pub struct PlayerMotion {
    state: PlayerState,
    jump: JumpState,
    takeoff_y: i32,
}

impl View for PlayerMotion {
    type V = MotionModel;

    closed spec fn view(&self) -> MotionModel {
        MotionModel { state: self.state@, jump_elapsed: self.jump@, takeoff_y: self.takeoff_y }
    }
}

impl Default for PlayerMotion {
    /// An idle character with a stopped jump stopwatch.
    fn default() -> (r: PlayerMotion)
        ensures
            r@.state == MovementState::Idle,
            r@.jump_elapsed == 0,
            r@.takeoff_y == 0,
    {
        PlayerMotion { state: PlayerState::default(), jump: JumpState::default(), takeoff_y: 0 }
    }
}

impl PlayerMotion {
    /// The current movement state.
    pub fn state(&self) -> (r: MovementState)
        ensures
            r == self@.state,
    {
        self.state.state()
    }

    /// Milliseconds on the jump stopwatch.
    pub fn jump_elapsed(&self) -> (r: u64)
        ensures
            r == self@.jump_elapsed,
    {
        self.jump.elapsed()
    }

    /// The movement data as a plain value.
    pub fn model(&self) -> (r: MotionModel)
        ensures
            r == self@,
    {
        MotionModel {
            state: self.state.state(),
            jump_elapsed: self.jump.elapsed(),
            takeoff_y: self.takeoff_y,
        }
    }

    /// Runs one frame and returns the displacement to request from the
    /// kinematic controller.
    pub fn step(&mut self, frame: &Frame, config: &MotionConfig) -> (r: Displacement)
        ensures
            final(self)@ == step_model(old(self)@, *frame),
            r.x == direction(frame.input) * config.movement_speed,
            r.y == vertical(
                final(self)@.state,
                final(self)@.jump_elapsed,
                final(self)@.takeoff_y,
                frame.y,
                *config,
            ),
    {
        let before = self.state.state();
        self.state.update(&frame.input, frame.grounded, frame.now);
        let after = self.state.state();
        self.jump.follow(&before, &after, frame.delta_ms);
        if let MovementState::Jumping { .. } = after {
            if before != after {
                self.takeoff_y = frame.y;
            }
        }
        frame_displacement(
            &after,
            self.jump.elapsed(),
            self.takeoff_y,
            frame.y,
            &frame.input,
            config,
        )
    }
}

} // verus!
