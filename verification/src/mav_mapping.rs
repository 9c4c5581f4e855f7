//! Binary-link joystick-to-gamepad mapping.
//!
//! Maps MANUAL_CONTROL axes (declared range -1000..1000, thrust
//! 0..1000) and button bitfields to the canonical gamepad state. The
//! thrust axis is routed either to the left trigger or to the left
//! stick Y axis, chosen by an explicit configuration flag.

use vstd::prelude::*;
use crate::crsf_mapping::clamp_i16;
use crate::types::{AnalogStick, Buttons, GamepadState};

verus! {

/// Axis mapping configuration for binary-link to gamepad conversion.
#[derive(Debug, Clone, Copy)]
pub struct AxisMapping {
    /// Invert X axis (pitch).
    pub invert_x: bool,
    /// Invert Y axis (roll).
    pub invert_y: bool,
    /// Invert Z axis (thrust).
    pub invert_z: bool,
    /// Invert R axis (yaw).
    pub invert_r: bool,
    /// Use Z axis as left trigger (true) or left stick Y (false).
    pub z_as_trigger: bool,
}

/// Default axis mapping: no inversion, thrust routed to the left trigger.
pub fn default_axis_mapping() -> (r: AxisMapping)
    ensures
        !r.invert_x && !r.invert_y && !r.invert_z && !r.invert_r,
        r.z_as_trigger,
{
    AxisMapping {
        invert_x: false,
        invert_y: false,
        invert_z: false,
        invert_r: false,
        z_as_trigger: true,
    }
}

/// Minimum of the binary-link axis range.
pub const MAVLINK_AXIS_MIN: i16 = -1000;

/// Maximum of the binary-link axis range.
pub const MAVLINK_AXIS_MAX: i16 = 1000;

/// Minimum of the binary-link thrust range.
pub const MAVLINK_Z_MIN: i16 = 0;

/// Maximum of the binary-link thrust range.
pub const MAVLINK_Z_MAX: i16 = 1000;

/// Truncating scaling of a binary-link axis value to the signed 16-bit
/// stick range.
pub open spec fn mav_scale(val: int) -> int {
    if val >= 0 {
        val * 32767 / 1000
    } else {
        -((-val) * 32767 / 1000)
    }
}

/// The stick value a binary-link axis maps to: scale -1000..1000 to the
/// signed 16-bit range, clamp, and optionally invert.
pub open spec fn mav_stick_spec(val: i16, invert: bool) -> int {
    let s = clamp_i16(mav_scale(val as int));
    if invert {
        -s
    } else {
        s
    }
}

/// The trigger value a thrust axis maps to: clamp into 0..1000, then
/// rescale linearly to 0..255.
pub open spec fn mav_trigger_spec(z: i16) -> int {
    let c = if z < 0 {
        0
    } else if z > 1000 {
        1000
    } else {
        z as int
    };
    c * 255 / 1000
}

/// Convert a binary-link axis value (-1000 to 1000) to a stick value
/// (-32767 to 32767), with optional inversion.
pub fn mavlink_to_stick(val: i16, invert: bool) -> (r: i16)
    requires
        -1000 <= val <= 1000,
    ensures
        r as int == mav_stick_spec(val, invert),
        -32767 <= r as int <= 32767,
{
    let scaled32: i32 = if val >= 0 {
        proof {
            assert(val * 32767 <= 1000 * 32767) by (nonlinear_arith)
                requires
                    0 <= val <= 1000,
            ;
            assert((val as i32) * 32767 / 1000 <= 32767) by (nonlinear_arith)
                requires
                    (val as i32) * 32767 <= 1000 * 32767 && 0 <= val,
            ;
        }
        (val as i32) * 32767 / 1000
    } else {
        proof {
            assert((-(val as i32)) * 32767 <= 1000 * 32767) by (nonlinear_arith)
                requires
                    0 < -(val as i32) <= 1000,
            ;
            assert((-(val as i32)) * 32767 / 1000 <= 32767) by (nonlinear_arith)
                requires
                    (-(val as i32)) * 32767 <= 1000 * 32767 && 0 < -(val as i32),
            ;
        }
        -((-(val as i32)) * 32767 / 1000)
    };
    let scaled: i16 = if scaled32 > 32767 {
        32767
    } else if scaled32 < -32768 {
        -32768
    } else {
        scaled32 as i16
    };
    if invert {
        -scaled
    } else {
        scaled
    }
}

/// Convert a thrust axis value (0-1000) to a trigger value (0-255);
/// total over the full i16 range by clamping first.
pub fn mavlink_z_to_trigger(z: i16) -> (r: u8)
    ensures
        r as int == mav_trigger_spec(z),
        r <= 255,
{
    let clamped: u32 = if z < 0 {
        0
    } else if z > 1000 {
        1000
    } else {
        z as u32
    };
    proof {
        assert(clamped * 255 / 1000 <= 255) by (nonlinear_arith)
            requires
                0 <= clamped <= 1000,
        ;
    }
    ((clamped * 255) / 1000) as u8
}

/// Convert the binary-link button bitfields to canonical buttons: the
/// first 15 bits map to the same bit positions; the secondary field is
/// accepted but contributes no mapped bits (reserved for extension).
pub fn mavlink_to_buttons(buttons: u16, buttons2: u16) -> (r: Buttons)
    ensures
        r.0 == buttons & 0x7FFF,
{
    let b0: u16 = if buttons & 0x0001 != 0 { Buttons::A } else { 0 };
    let b1: u16 = if buttons & 0x0002 != 0 { Buttons::B } else { 0 };
    let b2: u16 = if buttons & 0x0004 != 0 { Buttons::X } else { 0 };
    let b3: u16 = if buttons & 0x0008 != 0 { Buttons::Y } else { 0 };
    let b4: u16 = if buttons & 0x0010 != 0 { Buttons::LB } else { 0 };
    let b5: u16 = if buttons & 0x0020 != 0 { Buttons::RB } else { 0 };
    let b6: u16 = if buttons & 0x0040 != 0 { Buttons::BACK } else { 0 };
    let b7: u16 = if buttons & 0x0080 != 0 { Buttons::START } else { 0 };
    let b8: u16 = if buttons & 0x0100 != 0 { Buttons::GUIDE } else { 0 };
    let b9: u16 = if buttons & 0x0200 != 0 { Buttons::LS } else { 0 };
    let b10: u16 = if buttons & 0x0400 != 0 { Buttons::RS } else { 0 };
    let b11: u16 = if buttons & 0x0800 != 0 { Buttons::DPAD_UP } else { 0 };
    let b12: u16 = if buttons & 0x1000 != 0 { Buttons::DPAD_DOWN } else { 0 };
    let b13: u16 = if buttons & 0x2000 != 0 { Buttons::DPAD_LEFT } else { 0 };
    let b14: u16 = if buttons & 0x4000 != 0 { Buttons::DPAD_RIGHT } else { 0 };
    let result: u16 = b0 | b1 | b2 | b3 | b4 | b5 | b6 | b7 | b8 | b9 | b10 | b11 | b12 | b13
        | b14;
    let _ = buttons2;
    proof {
        assert(result == buttons & 0x7FFF) by (bit_vector)
            requires
                b0 == (if buttons & 0x0001u16 != 0 { 0x0001u16 } else { 0u16 }),
                b1 == (if buttons & 0x0002u16 != 0 { 0x0002u16 } else { 0u16 }),
                b2 == (if buttons & 0x0004u16 != 0 { 0x0004u16 } else { 0u16 }),
                b3 == (if buttons & 0x0008u16 != 0 { 0x0008u16 } else { 0u16 }),
                b4 == (if buttons & 0x0010u16 != 0 { 0x0010u16 } else { 0u16 }),
                b5 == (if buttons & 0x0020u16 != 0 { 0x0020u16 } else { 0u16 }),
                b6 == (if buttons & 0x0040u16 != 0 { 0x0040u16 } else { 0u16 }),
                b7 == (if buttons & 0x0080u16 != 0 { 0x0080u16 } else { 0u16 }),
                b8 == (if buttons & 0x0100u16 != 0 { 0x0100u16 } else { 0u16 }),
                b9 == (if buttons & 0x0200u16 != 0 { 0x0200u16 } else { 0u16 }),
                b10 == (if buttons & 0x0400u16 != 0 { 0x0400u16 } else { 0u16 }),
                b11 == (if buttons & 0x0800u16 != 0 { 0x0800u16 } else { 0u16 }),
                b12 == (if buttons & 0x1000u16 != 0 { 0x1000u16 } else { 0u16 }),
                b13 == (if buttons & 0x2000u16 != 0 { 0x2000u16 } else { 0u16 }),
                b14 == (if buttons & 0x4000u16 != 0 { 0x4000u16 } else { 0u16 }),
                result == b0 | b1 | b2 | b3 | b4 | b5 | b6 | b7 | b8 | b9 | b10 | b11 | b12
                    | b13 | b14,
        ;
    }
    Buttons(result)
}

/// Convert binary-link MANUAL_CONTROL fields to a gamepad state.
///
/// Roll (`y`) feeds right stick X; pitch (`x`), negated so that forward
/// is up, feeds right stick Y; yaw (`r`) feeds left stick X; thrust
/// (`z`) feeds the left trigger or left stick Y as configured. The
/// right trigger is unused.
pub fn manual_control_to_gamepad(
    x: i16,
    y: i16,
    z: i16,
    r: i16,
    buttons: u16,
    buttons2: u16,
    mapping: &AxisMapping,
) -> (st: GamepadState)
    requires
        -1000 <= x <= 1000,
        -1000 <= y <= 1000,
        -1000 <= z <= 1000,
        -1000 <= r <= 1000,
    ensures
        st.right_stick.x as int == mav_stick_spec(y, mapping.invert_y),
        st.right_stick.y as int == mav_stick_spec((-x) as i16, mapping.invert_x),
        st.left_stick.x as int == mav_stick_spec(r, mapping.invert_r),
        mapping.z_as_trigger ==> (st.left_stick.y == 0 && st.left_trigger as int
            == mav_trigger_spec(
            if mapping.invert_z {
                (1000 - z) as i16
            } else {
                z
            },
        )),
        !mapping.z_as_trigger ==> (st.left_stick.y as int == mav_stick_spec(z, mapping.invert_z)
            && st.left_trigger == 0),
        st.buttons.0 == buttons & 0x7FFF,
        st.right_trigger == 0,
{
    let right_stick = AnalogStick {
        x: mavlink_to_stick(y, mapping.invert_y),
        y: mavlink_to_stick(-x, mapping.invert_x),
    };

    let left_x = mavlink_to_stick(r, mapping.invert_r);
    let left_stick: AnalogStick;
    let left_trigger: u8;
    if mapping.z_as_trigger {
        left_stick = AnalogStick { x: left_x, y: 0 };
        left_trigger = mavlink_z_to_trigger(
            if mapping.invert_z {
                1000 - z
            } else {
                z
            },
        );
    } else {
        left_stick = AnalogStick { x: left_x, y: mavlink_to_stick(z, mapping.invert_z) };
        left_trigger = 0;
    }

    GamepadState {
        buttons: mavlink_to_buttons(buttons, buttons2),
        left_stick,
        right_stick,
        left_trigger,
        right_trigger: 0,
    }
}

} // verus!
