//! The player's movement state machine: which movement state the character
//! is in, the events that move it between states, and the per-frame policy
//! that decides which event a frame produces.
//!
//! Timestamps are milliseconds on a monotonic clock.
use vstd::prelude::*;

use crate::actions::InputSnapshot;

verus! {

/// How long after a jump starts a grounded reading is still taken for the
/// ground the character is leaving, in milliseconds.
pub const LANDING_GRACE_MS: u64 = 50;

/// The longest a jump can rise before the character falls, in milliseconds.
pub const APEX_TIMEOUT_MS: u64 = 500;

/// The movement state of a character. Only `Jumping` carries timing data.
#[derive(Clone, Copy, Debug, PartialEq, Eq, Structural)]
pub enum MovementState {
    Idle,
    Jumping { started_at: u64 },
    Falling,
}

impl MovementState {
    /// When the current jump started: present exactly while jumping.
    pub open spec fn started_at_spec(self) -> Option<u64> {
        match self {
            MovementState::Jumping { started_at } => Some(started_at),
            _ => None,
        }
    }

    /// When the current jump started: present exactly while jumping.
    pub fn started_at(&self) -> (r: Option<u64>)
        ensures
            r == self.started_at_spec(),
            r is Some <==> *self is Jumping,
    {
        match self {
            MovementState::Jumping { started_at } => Some(*started_at),
            _ => None,
        }
    }
}

/// A request to change the movement state, consumed the frame it is made.
#[derive(Clone, Copy, Debug, PartialEq, Eq, Structural)]
pub enum Event {
    /// Start a jump at `event_time`.
    Jump { event_time: u64 },
    /// The character stands on the ground.
    Land,
    /// The character stops rising and begins to fall.
    Fall,
}

/// The transition table for events. An event that has no row for the
/// current state leaves it as it is: in particular a jump cannot be started
/// while jumping or falling.
pub open spec fn dispatch(s: MovementState, e: Event) -> MovementState {
    match (s, e) {
        (MovementState::Idle, Event::Jump { event_time }) => MovementState::Jumping {
            started_at: event_time,
        },
        (MovementState::Jumping { .. }, Event::Land) => MovementState::Idle,
        (MovementState::Jumping { .. }, Event::Fall) => MovementState::Falling,
        (MovementState::Falling, Event::Land) => MovementState::Idle,
        _ => s,
    }
}

/// The state after an optional event.
pub open spec fn dispatch_opt(s: MovementState, e: Option<Event>) -> MovementState {
    match e {
        Some(e) => dispatch(s, e),
        None => s,
    }
}

/// More than `limit` milliseconds have passed from `since` to `now`. A clock
/// reading earlier than `since` counts as no time passed.
pub open spec fn elapsed_over(since: u64, now: u64, limit: u64) -> bool {
    now >= since && now - since > limit
}

/// The frame's time-based exit: a jump that has risen for longer than the
/// apex timeout turns into a fall.
pub open spec fn after_timeouts(s: MovementState, now: u64) -> MovementState {
    match s {
        MovementState::Jumping { started_at } => if elapsed_over(started_at, now, APEX_TIMEOUT_MS) {
            MovementState::Falling
        } else {
            s
        },
        _ => s,
    }
}

/// The frame's input-triggered transition.
pub open spec fn after_input(
    s: MovementState,
    input: InputSnapshot,
    grounded: bool,
    now: u64,
) -> MovementState {
    match s {
        MovementState::Idle => if input.jump.just_pressed {
            MovementState::Jumping { started_at: now }
        } else {
            s
        },
        MovementState::Jumping { started_at } => if input.jump.just_released {
            MovementState::Falling
        } else if grounded && elapsed_over(started_at, now, LANDING_GRACE_MS) {
            MovementState::Idle
        } else {
            s
        },
        MovementState::Falling => if grounded {
            MovementState::Idle
        } else {
            s
        },
    }
}

/// The state after one frame. Time-based exits are evaluated first and win:
/// a frame in which a timer expires makes that transition and no other, so
/// the next frame's input meets the state the timer left.
pub open spec fn next_state(
    s: MovementState,
    input: InputSnapshot,
    grounded: bool,
    now: u64,
) -> MovementState {
    if after_timeouts(s, now) != s {
        after_timeouts(s, now)
    } else {
        after_input(s, input, grounded, now)
    }
}

/// Whether more than `limit` milliseconds have passed from `since` to `now`.
fn elapsed_exceeds(since: u64, now: u64, limit: u64) -> (r: bool)
    ensures
        r == elapsed_over(since, now, limit),
{
    now >= since && now - since > limit
}

/// The event that the clock produces this frame, if any.
pub fn timeout_event(state: &MovementState, now: u64) -> (r: Option<Event>)
    ensures
        r is Some ==> r->0 == Event::Fall,
        r is Some <==> after_timeouts(*state, now) != *state,
        dispatch_opt(*state, r) == after_timeouts(*state, now),
{
    match state {
        MovementState::Jumping { started_at } => {
            if elapsed_exceeds(*started_at, now, APEX_TIMEOUT_MS) {
                Some(Event::Fall)
            } else {
                None
            }
        },
        _ => None,
    }
}

/// The event that input and the ground sensor produce this frame, if any.
pub fn input_event(state: &MovementState, input: &InputSnapshot, grounded: bool, now: u64) -> (r:
    Option<Event>)
    ensures
        r is Some <==> after_input(*state, *input, grounded, now) != *state,
        dispatch_opt(*state, r) == after_input(*state, *input, grounded, now),
{
    match state {
        MovementState::Idle => {
            if input.jump.just_pressed {
                Some(Event::Jump { event_time: now })
            } else {
                None
            }
        },
        MovementState::Jumping { started_at } => {
            if input.jump.just_released {
                Some(Event::Fall)
            } else if grounded && elapsed_exceeds(*started_at, now, LANDING_GRACE_MS) {
                Some(Event::Land)
            } else {
                None
            }
        },
        MovementState::Falling => {
            if grounded {
                Some(Event::Land)
            } else {
                None
            }
        },
    }
}

/// The movement state machine of one player character. Its state changes
/// only through events, so every change follows the transition table.
pub struct PlayerState {
    machine: MovementState,
}

impl View for PlayerState {
    type V = MovementState;

    closed spec fn view(&self) -> MovementState {
        self.machine
    }
}

impl Default for PlayerState {
    /// A machine that starts out idle.
    fn default() -> (r: PlayerState)
        ensures
            r@ == MovementState::Idle,
    {
        PlayerState { machine: MovementState::Idle }
    }
}

impl PlayerState {
    /// The current movement state.
    pub fn state(&self) -> (r: MovementState)
        ensures
            r == self@,
    {
        self.machine
    }

    /// Applies one event to the machine.
    pub fn handle(&mut self, event: &Event)
        ensures
            final(self)@ == dispatch(old(self)@, *event),
    {
        let next = match (self.machine, *event) {
            (MovementState::Idle, Event::Jump { event_time }) => MovementState::Jumping {
                started_at: event_time,
            },
            (MovementState::Jumping { .. }, Event::Land) => MovementState::Idle,
            (MovementState::Jumping { .. }, Event::Fall) => MovementState::Falling,
            (MovementState::Falling, Event::Land) => MovementState::Idle,
            (s, _) => s,
        };
        self.machine = next;
    }

    /// Runs the machine for one frame: the time-based exit if a timer has
    /// expired, else the transition that input and the ground sensor call
    /// for.
    pub fn update(&mut self, input: &InputSnapshot, grounded: bool, now: u64)
        ensures
            final(self)@ == next_state(old(self)@, *input, grounded, now),
    {
        let event = match timeout_event(&self.machine, now) {
            Some(e) => Some(e),
            None => input_event(&self.machine, input, grounded, now),
        };
        if let Some(e) = event {
            self.handle(&e);
        }
    }
}

} // verus!
