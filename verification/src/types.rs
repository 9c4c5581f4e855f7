//! Canonical gamepad state model: `Buttons`, `AnalogStick`, `GamepadState`,
//! and the single-field update type `GamepadFieldUpdate`.

use vstd::prelude::*;

verus! {

/// Button state represented as a 16-bit bitfield.
///
/// Supports up to 16 buttons, with common gamepad buttons pre-defined.
/// `NONE` is the all-clear value.
#[derive(Clone, Copy, Debug, PartialEq, Eq, Structural)]
pub struct Buttons(pub u16);

impl Buttons {
    /// A button bit.
    pub const A: u16 = 0x0001;

    /// B button bit.
    pub const B: u16 = 0x0002;

    /// X button bit.
    pub const X: u16 = 0x0004;

    /// Y button bit.
    pub const Y: u16 = 0x0008;

    /// Left bumper bit.
    pub const LB: u16 = 0x0010;

    /// Right bumper bit.
    pub const RB: u16 = 0x0020;

    /// Select/Back bit.
    pub const BACK: u16 = 0x0040;

    /// Start bit.
    pub const START: u16 = 0x0080;

    /// Guide/Home button bit.
    pub const GUIDE: u16 = 0x0100;

    /// Left stick press bit.
    pub const LS: u16 = 0x0200;

    /// Right stick press bit.
    pub const RS: u16 = 0x0400;

    /// D-pad up bit.
    pub const DPAD_UP: u16 = 0x0800;

    /// D-pad down bit.
    pub const DPAD_DOWN: u16 = 0x1000;

    /// D-pad left bit.
    pub const DPAD_LEFT: u16 = 0x2000;

    /// D-pad right bit.
    pub const DPAD_RIGHT: u16 = 0x4000;

    /// No buttons pressed.
    pub const NONE: u16 = 0;

    /// Check if the given button(s) are pressed.
    pub fn contains(self, button: Buttons) -> (r: bool)
        ensures
            r == (self.0 & button.0 == button.0),
    {
        (self.0 & button.0) == button.0
    }

    /// Check if the given button is pressed (alias for `contains`).
    pub fn is_pressed(self, button: Buttons) -> (r: bool)
        ensures
            r == (self.0 & button.0 == button.0),
    {
        self.contains(button)
    }

    /// Set or clear button(s).
    pub fn set(&mut self, button: Buttons, pressed: bool)
        ensures
            final(self).0 == if pressed {
                old(self).0 | button.0
            } else {
                old(self).0 & !button.0
            },
    {
        if pressed {
            self.0 = self.0 | button.0;
        } else {
            self.0 = self.0 & !button.0;
        }
    }

    /// Get the raw u16 value.
    pub fn raw(self) -> (r: u16)
        ensures
            r == self.0,
    {
        self.0
    }

    /// Check if no buttons are pressed.
    pub fn is_empty(self) -> (r: bool)
        ensures
            r == (self.0 == 0),
    {
        self.0 == 0
    }
}

/// Analog stick with X/Y axes, full signed 16-bit range.
#[derive(Clone, Copy, Debug, PartialEq, Eq, Structural)]
pub struct AnalogStick {
    pub x: i16,
    pub y: i16,
}

impl AnalogStick {
    /// Construct a stick position from its two axes.
    pub fn new(x: i16, y: i16) -> (r: AnalogStick)
        ensures
            r.x == x,
            r.y == y,
    {
        AnalogStick { x, y }
    }

    /// Centered stick position.
    pub fn neutral() -> (r: AnalogStick)
        ensures
            r.x == 0,
            r.y == 0,
    {
        AnalogStick { x: 0, y: 0 }
    }
}

/// Complete gamepad state snapshot: 16 buttons, two analog sticks,
/// and two triggers (0-255).
#[derive(Clone, Copy, Debug, PartialEq, Eq, Structural)]
pub struct GamepadState {
    pub buttons: Buttons,
    pub left_stick: AnalogStick,
    pub right_stick: AnalogStick,
    pub left_trigger: u8,
    pub right_trigger: u8,
}

/// The all-zero baseline state: no buttons pressed, sticks centered,
/// triggers released. This is the designated fail-safe value.
pub open spec fn neutral_state() -> GamepadState {
    GamepadState {
        buttons: Buttons(0),
        left_stick: AnalogStick { x: 0, y: 0 },
        right_stick: AnalogStick { x: 0, y: 0 },
        left_trigger: 0,
        right_trigger: 0,
    }
}

/// The state that results from replacing exactly the field named by `update`
/// in `s`, leaving every other field at its prior value.
pub open spec fn applied_update(s: GamepadState, update: GamepadFieldUpdate) -> GamepadState {
    match update {
        GamepadFieldUpdate::Buttons(b) => GamepadState { buttons: b, ..s },
        GamepadFieldUpdate::LeftStickX(x) => GamepadState {
            left_stick: AnalogStick { x, y: s.left_stick.y },
            ..s
        },
        GamepadFieldUpdate::LeftStickY(y) => GamepadState {
            left_stick: AnalogStick { x: s.left_stick.x, y },
            ..s
        },
        GamepadFieldUpdate::RightStickX(x) => GamepadState {
            right_stick: AnalogStick { x, y: s.right_stick.y },
            ..s
        },
        GamepadFieldUpdate::RightStickY(y) => GamepadState {
            right_stick: AnalogStick { x: s.right_stick.x, y },
            ..s
        },
        GamepadFieldUpdate::LeftTrigger(t) => GamepadState { left_trigger: t, ..s },
        GamepadFieldUpdate::RightTrigger(t) => GamepadState { right_trigger: t, ..s },
    }
}

impl GamepadState {
    /// Create a zeroed/neutral gamepad state (no buttons pressed, sticks centered).
    pub fn neutral() -> (r: GamepadState)
        ensures
            r == neutral_state(),
    {
        GamepadState {
            buttons: Buttons(0),
            left_stick: AnalogStick { x: 0, y: 0 },
            right_stick: AnalogStick { x: 0, y: 0 },
            left_trigger: 0,
            right_trigger: 0,
        }
    }

    /// Apply a single field update to this state: the named field takes the
    /// carried value, all other fields retain their prior value.
    pub fn apply_update(&mut self, update: GamepadFieldUpdate)
        ensures
            *final(self) == applied_update(*old(self), update),
    {
        match update {
            GamepadFieldUpdate::Buttons(b) => self.buttons = b,
            GamepadFieldUpdate::LeftStickX(x) => self.left_stick.x = x,
            GamepadFieldUpdate::LeftStickY(y) => self.left_stick.y = y,
            GamepadFieldUpdate::RightStickX(x) => self.right_stick.x = x,
            GamepadFieldUpdate::RightStickY(y) => self.right_stick.y = y,
            GamepadFieldUpdate::LeftTrigger(t) => self.left_trigger = t,
            GamepadFieldUpdate::RightTrigger(t) => self.right_trigger = t,
        }
    }
}

/// Represents a single field update for incremental protocol messages.
///
/// Applying an update to a state replaces only the named field.
#[derive(Clone, Copy, Debug, PartialEq, Eq, Structural)]
pub enum GamepadFieldUpdate {
    /// Update buttons (B field).
    Buttons(Buttons),
    /// Update left stick X axis (LX field).
    LeftStickX(i16),
    /// Update left stick Y axis (LY field).
    LeftStickY(i16),
    /// Update right stick X axis (RX field).
    RightStickX(i16),
    /// Update right stick Y axis (RY field).
    RightStickY(i16),
    /// Update left trigger (LT field).
    LeftTrigger(u8),
    /// Update right trigger (RT field).
    RightTrigger(u8),
}

/// Applying the same update twice yields the same state as applying it once.
pub proof fn lemma_apply_update_idempotent(s: GamepadState, update: GamepadFieldUpdate)
    ensures
        applied_update(applied_update(s, update), update) == applied_update(s, update),
{
}

/// Applying an update never changes a field other than the one it names.
pub proof fn lemma_apply_update_frame(s: GamepadState, update: GamepadFieldUpdate)
    ensures
        !(update is Buttons) ==> applied_update(s, update).buttons == s.buttons,
        !(update is LeftStickX) ==> applied_update(s, update).left_stick.x == s.left_stick.x,
        !(update is LeftStickY) ==> applied_update(s, update).left_stick.y == s.left_stick.y,
        !(update is RightStickX) ==> applied_update(s, update).right_stick.x == s.right_stick.x,
        !(update is RightStickY) ==> applied_update(s, update).right_stick.y == s.right_stick.y,
        !(update is LeftTrigger) ==> applied_update(s, update).left_trigger == s.left_trigger,
        !(update is RightTrigger) ==> applied_update(s, update).right_trigger == s.right_trigger,
{
}

} // verus!
