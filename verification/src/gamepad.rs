use vstd::prelude::*;

verus! {

/// A physical input of an Xbox-style gamepad that an on-screen control stands for.
#[derive(Debug, Clone, Copy, PartialEq, Eq, Structural)]
pub enum GamepadInput {
    ButtonA,
    ButtonB,
    ButtonX,
    ButtonY,
    BumperLeft,
    BumperRight,
    TriggerLeft,
    TriggerRight,
    DpadUp,
    DpadDown,
    DpadLeft,
    DpadRight,
    Start,
    Select,
    XboxButton,
    StickLeft,
    StickRight,
    StickLeftAxis,
    StickRightAxis,
}

impl GamepadInput {
    /// The inputs that belong to a thumbstick: its knob (press) or its axis ring.
    pub open spec fn spec_is_stick(self) -> bool {
        ||| self is StickLeft
        ||| self is StickRight
        ||| self is StickLeftAxis
        ||| self is StickRightAxis
    }

    /// Whether this input belongs to a thumbstick.
    pub fn is_stick(&self) -> (r: bool)
        ensures
            r == self.spec_is_stick(),
    {
        match self {
            GamepadInput::StickLeft
            | GamepadInput::StickRight
            | GamepadInput::StickLeftAxis
            | GamepadInput::StickRightAxis => true,
            _ => false,
        }
    }
}

/// Whether a control went down or came up.
#[derive(Debug, Clone, Copy, PartialEq, Eq, Structural)]
pub enum PressState {
    Pressed,
    Released,
}

/// A change of state of one on-screen control.
#[derive(Debug, Clone, Copy, PartialEq, Eq, Structural)]
pub struct InputEvent {
    pub control_id: u32,
    pub input: GamepadInput,
    pub state: PressState,
}

} // verus!
