//! Properties of the movement state machine and of the frame step, stated
//! over the transition table and the frame model and proved by Verus.
use vstd::prelude::*;

use crate::actions::InputSnapshot;
use crate::motion::{step_model, Frame, MotionModel};
use crate::movement::{
    dispatch,
    elapsed_over,
    next_state,
    Event,
    MovementState,
    APEX_TIMEOUT_MS,
    LANDING_GRACE_MS,
};

verus! {

/// An event with no row in the transition table for the current state
/// leaves the state as it is.
pub proof fn lemma_unlisted_event_keeps_state(s: MovementState, e: Event)
    requires
        !(s is Idle && e is Jump),
        !(s is Jumping && (e is Land || e is Fall)),
        !(s is Falling && e is Land),
    ensures
        dispatch(s, e) == s,
{
}

/// A frame in which no timer expires and no input or ground reading
/// qualifies for a transition leaves the state as it is.
pub proof fn lemma_quiet_frame_keeps_state(
    s: MovementState,
    input: InputSnapshot,
    grounded: bool,
    now: u64,
)
    requires
        s is Idle ==> !input.jump.just_pressed,
        s is Jumping ==> {
            &&& !elapsed_over(s->started_at, now, APEX_TIMEOUT_MS)
            &&& !input.jump.just_released
            &&& !(grounded && elapsed_over(s->started_at, now, LANDING_GRACE_MS))
        },
        s is Falling ==> !grounded,
    ensures
        next_state(s, input, grounded, now) == s,
{
}

/// A jump pressed while idle starts a jump stamped with the current time.
pub proof fn lemma_jump_from_idle(input: InputSnapshot, grounded: bool, now: u64, t: u64)
    requires
        input.jump.just_pressed,
    ensures
        next_state(MovementState::Idle, input, grounded, now) == (MovementState::Jumping {
            started_at: now,
        }),
        next_state(MovementState::Idle, input, grounded, now).started_at_spec() == Some(now),
        dispatch(MovementState::Idle, Event::Jump { event_time: t }).started_at_spec() == Some(t),
{
}

/// While jumping off the ground with the jump button held, the jump lasts
/// exactly until more than the apex timeout has passed, and then turns
/// into a fall.
pub proof fn lemma_apex_timeout(started_at: u64, input: InputSnapshot, now: u64)
    requires
        !input.jump.just_released,
    ensures
        next_state(MovementState::Jumping { started_at }, input, false, now) == if elapsed_over(
            started_at,
            now,
            APEX_TIMEOUT_MS,
        ) {
            MovementState::Falling
        } else {
            MovementState::Jumping { started_at }
        },
{
}

/// Before the apex timeout, a grounded reading while jumping lands the
/// character only once more than the landing grace has passed since the
/// jump started.
pub proof fn lemma_landing_grace(started_at: u64, input: InputSnapshot, now: u64)
    requires
        !input.jump.just_released,
        !elapsed_over(started_at, now, APEX_TIMEOUT_MS),
    ensures
        next_state(MovementState::Jumping { started_at }, input, true, now) == if elapsed_over(
            started_at,
            now,
            LANDING_GRACE_MS,
        ) {
            MovementState::Idle
        } else {
            MovementState::Jumping { started_at }
        },
{
}

/// Releasing the jump button while jumping starts a fall, however long the
/// jump has lasted and whatever the ground sensor reads.
pub proof fn lemma_release_falls(started_at: u64, input: InputSnapshot, grounded: bool, now: u64)
    requires
        input.jump.just_released,
    ensures
        next_state(MovementState::Jumping { started_at }, input, grounded, now)
            == MovementState::Falling,
        dispatch(MovementState::Jumping { started_at }, Event::Fall) == MovementState::Falling,
{
}

/// A falling character lands when the ground sensor reads grounded and
/// keeps falling otherwise, whatever the input.
pub proof fn lemma_falling_lands_on_ground(input: InputSnapshot, grounded: bool, now: u64)
    ensures
        next_state(MovementState::Falling, input, grounded, now) == if grounded {
            MovementState::Idle
        } else {
            MovementState::Falling
        },
{
}

/// Dispatching the same event twice in a row has the effect of dispatching
/// it once.
pub proof fn lemma_dispatch_idempotent(s: MovementState, e: Event)
    ensures
        dispatch(dispatch(s, e), e) == dispatch(s, e),
{
}

/// A frame that causes no transition, repeated, causes none either, and
/// neither frame sets the jump stopwatch back.
pub proof fn lemma_repeated_quiet_frame(m: MotionModel, frame: Frame)
    requires
        step_model(m, frame).state == m.state,
    ensures
        step_model(step_model(m, frame), frame).state == m.state,
        step_model(m, frame).jump_elapsed >= m.jump_elapsed,
        step_model(step_model(m, frame), frame).jump_elapsed >= step_model(m, frame).jump_elapsed,
{
}

} // verus!
