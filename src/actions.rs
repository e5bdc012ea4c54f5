//! The actions a player can trigger, and one frame's view of them.
use vstd::prelude::*;

verus! {

/// Everything the player can ask the character to do, independent of the
/// device (keyboard, gamepad) the request came from.
#[derive(Clone, Copy, Debug, PartialEq, Eq, Structural, Hash)]
pub enum PlatformerAction {
    Right,
    Left,
    Down,
    Up,
    Move,
    Horizontal,
    Falling,
    Jump,
    Heal,
    Dash,
    Pause,
    Menus,
}

/// One action's state during a frame: whether it is held, and whether it
/// was pressed or released since the previous frame.
#[derive(Clone, Copy, Debug, PartialEq, Eq, Structural)]
pub struct ButtonState {
    pub pressed: bool,
    pub just_pressed: bool,
    pub just_released: bool,
}

impl ButtonState {
    /// A button that is up and was not touched this frame.
    pub fn released() -> (r: ButtonState)
        ensures
            !r.pressed && !r.just_pressed && !r.just_released,
    {
        ButtonState { pressed: false, just_pressed: false, just_released: false }
    }
}

/// A frame's input snapshot for the actions the movement core reads.
/// Every other action reads as released.
#[derive(Clone, Copy, Debug, PartialEq, Eq, Structural)]
pub struct InputSnapshot {
    pub left: ButtonState,
    pub right: ButtonState,
    pub up: ButtonState,
    pub down: ButtonState,
    pub jump: ButtonState,
}

impl InputSnapshot {
    /// The state of `action` in this snapshot.
    pub open spec fn button_spec(self, action: PlatformerAction) -> ButtonState {
        match action {
            PlatformerAction::Left => self.left,
            PlatformerAction::Right => self.right,
            PlatformerAction::Up => self.up,
            PlatformerAction::Down => self.down,
            PlatformerAction::Jump => self.jump,
            _ => ButtonState { pressed: false, just_pressed: false, just_released: false },
        }
    }

    /// A snapshot in which no action is held, pressed or released.
    pub fn idle() -> (r: InputSnapshot)
        ensures
            forall|a: PlatformerAction|
                !(#[trigger] r.button_spec(a)).pressed && !r.button_spec(a).just_pressed
                    && !r.button_spec(a).just_released,
    {
        let b = ButtonState::released();
        InputSnapshot { left: b, right: b, up: b, down: b, jump: b }
    }

    /// The state of `action` in this snapshot.
    pub fn button(&self, action: PlatformerAction) -> (r: ButtonState)
        ensures
            r == self.button_spec(action),
    {
        match action {
            PlatformerAction::Left => self.left,
            PlatformerAction::Right => self.right,
            PlatformerAction::Up => self.up,
            PlatformerAction::Down => self.down,
            PlatformerAction::Jump => self.jump,
            _ => ButtonState::released(),
        }
    }

    /// Whether `action` is held this frame.
    pub fn pressed(&self, action: PlatformerAction) -> (r: bool)
        ensures
            r == self.button_spec(action).pressed,
    {
        self.button(action).pressed
    }

    /// Whether `action` went down this frame.
    pub fn just_pressed(&self, action: PlatformerAction) -> (r: bool)
        ensures
            r == self.button_spec(action).just_pressed,
    {
        self.button(action).just_pressed
    }

    /// Whether `action` went up this frame.
    pub fn just_released(&self, action: PlatformerAction) -> (r: bool)
        ensures
            r == self.button_spec(action).just_released,
    {
        self.button(action).just_released
    }
}

} // verus!
