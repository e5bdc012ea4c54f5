//! The jump stopwatch: how long the character has been rising in the
//! current jump, in milliseconds.
use vstd::prelude::*;

use crate::movement::MovementState;

verus! {

/// The stopwatch after a frame in which the machine went from `before` to
/// `after` and `delta` milliseconds passed: any change of state resets it,
/// a frame spent jumping advances it (stopping at the largest reading), and
/// any other frame leaves it alone.
pub open spec fn next_timer(before: MovementState, after: MovementState, t: u64, delta: u64) -> u64 {
    if before != after {
        0
    } else if after is Jumping {
        t.saturating_add(delta)
    } else {
        t
    }
}

/// The jump stopwatch of one player character.
pub struct JumpState {
    time: u64,
}

impl View for JumpState {
    type V = u64;

    closed spec fn view(&self) -> u64 {
        self.time
    }
}

impl Default for JumpState {
    /// A stopwatch that reads zero.
    fn default() -> (r: JumpState)
        ensures
            r@ == 0,
    {
        JumpState { time: 0 }
    }
}

impl JumpState {
    /// Milliseconds on the stopwatch.
    pub fn elapsed(&self) -> (r: u64)
        ensures
            r == self@,
    {
        self.time
    }

    /// Advances the stopwatch by `delta` milliseconds, stopping at the
    /// largest reading rather than wrapping.
    pub fn tick(&mut self, delta: u64)
        ensures
            final(self)@ == old(self)@.saturating_add(delta),
    {
        self.time = self.time.saturating_add(delta);
    }

    /// Sets the stopwatch back to zero.
    pub fn reset(&mut self)
        ensures
            final(self)@ == 0,
    {
        self.time = 0;
    }

    /// Brings the stopwatch up to date after a frame of `delta` milliseconds
    /// in which the machine went from `before` to `after`.
    pub fn follow(&mut self, before: &MovementState, after: &MovementState, delta: u64)
        ensures
            final(self)@ == next_timer(*before, *after, old(self)@, delta),
    {
        if *before != *after {
            self.reset();
        } else if let MovementState::Jumping { .. } = after {
            self.tick(delta);
        }
    }
}

} // verus!
