//! RC-channel-to-gamepad mapping.
//!
//! The RC link provides 16 channels with 11-bit resolution (0-1984,
//! center 992). These pure functions map channel values to canonical
//! gamepad controls: center-referenced scaling to sticks, linear
//! rescaling to triggers, and a midpoint threshold for buttons. Every
//! mapper is total over the full 16-bit channel range and clamps into
//! its declared output range.

use vstd::prelude::*;
use crate::types::{AnalogStick, Buttons, GamepadState};

verus! {

/// RC channel center value (11-bit).
pub const CRSF_CENTER: u16 = 992;

/// RC channel maximum value (11-bit).
pub const CRSF_MAX: u16 = 1984;

/// RC channel minimum value.
pub const CRSF_MIN: u16 = 0;

/// Button threshold: values strictly above this are considered pressed.
pub const BUTTON_THRESHOLD: u16 = 992;

/// Channel mapping configuration for RC-channel to gamepad conversion.
#[derive(Debug, Clone, Copy)]
pub struct ChannelMapping {
    /// Channel index for right stick X axis (typically Roll/Aileron).
    pub right_stick_x: usize,
    /// Channel index for right stick Y axis (typically Pitch/Elevator).
    pub right_stick_y: usize,
    /// Channel index for left stick X axis (typically Yaw/Rudder).
    pub left_stick_x: usize,
    /// Channel index for left stick Y axis (optional, often unused).
    pub left_stick_y: usize,
    /// Channel index for left trigger (typically Throttle).
    pub left_trigger: usize,
    /// Channel index for right trigger (optional auxiliary).
    pub right_trigger: usize,
    /// Channel indices for button mapping (aux channels).
    /// Channels above the threshold are considered pressed.
    pub button_channels: [usize; 8],
    /// Invert right stick X axis.
    pub invert_right_x: bool,
    /// Invert right stick Y axis.
    pub invert_right_y: bool,
    /// Invert left stick X axis.
    pub invert_left_x: bool,
    /// Invert left stick Y axis.
    pub invert_left_y: bool,
}

impl ChannelMapping {
    /// The six analog channel indices address one of the 16 channels.
    pub open spec fn valid(&self) -> bool {
        &&& self.right_stick_x < 16
        &&& self.right_stick_y < 16
        &&& self.left_stick_x < 16
        &&& self.left_stick_y < 16
        &&& self.left_trigger < 16
        &&& self.right_trigger < 16
    }
}

/// Default RC channel mapping following standard conventions:
/// roll to right stick X, pitch to right stick Y, throttle to the left
/// trigger (and optionally left stick Y), yaw to left stick X, and the
/// next eight channels to buttons.
pub fn default_mapping() -> (r: ChannelMapping)
    ensures
        r.valid(),
        r.right_stick_x == 0,
        r.right_stick_y == 1,
        r.left_stick_x == 3,
        r.left_stick_y == 2,
        r.left_trigger == 2,
        r.right_trigger == 4,
        r.button_channels@ == seq![5usize, 6, 7, 8, 9, 10, 11, 12],
        !r.invert_right_x && !r.invert_right_y && !r.invert_left_x && !r.invert_left_y,
{
    let r = ChannelMapping {
        right_stick_x: 0,
        right_stick_y: 1,
        left_stick_x: 3,
        left_stick_y: 2,
        left_trigger: 2,
        right_trigger: 4,
        button_channels: [5, 6, 7, 8, 9, 10, 11, 12],
        invert_right_x: false,
        invert_right_y: false,
        invert_left_x: false,
        invert_left_y: false,
    };
    proof {
        assert(r.button_channels@ =~= seq![5usize, 6, 7, 8, 9, 10, 11, 12]);
    }
    r
}

/// Truncating scaling of a center-referenced channel offset to the
/// signed 16-bit stick range.
pub open spec fn stick_scale(centered: int) -> int {
    if centered >= 0 {
        centered * 32767 / 992
    } else {
        -((-centered) * 32767 / 992)
    }
}

/// Clamp into the signed 16-bit range.
pub open spec fn clamp_i16(v: int) -> int {
    if v > 32767 {
        32767
    } else if v < -32768 {
        -32768
    } else {
        v
    }
}

/// The stick value an RC channel maps to: center at 992, scale to the
/// full signed 16-bit range, clamp, and optionally invert.
pub open spec fn crsf_stick_spec(val: u16, invert: bool) -> int {
    let s = clamp_i16(stick_scale(val - 992));
    if invert {
        -s
    } else {
        s
    }
}

/// The trigger value an RC channel maps to: linear rescale of 0..1984
/// to 0..255, clamped at 255.
pub open spec fn crsf_trigger_spec(val: u16) -> int {
    let t = val * 255 / 1984;
    if t > 255 {
        255
    } else {
        t
    }
}

/// Convert an RC channel value (0-1984, center 992) to a stick value.
///
/// Total over the full u16 range; out-of-range channel values still
/// clamp into a valid stick value.
pub fn crsf_to_stick(val: u16, invert: bool) -> (r: i16)
    ensures
        r as int == crsf_stick_spec(val, invert),
        -32767 <= r as int <= 32767,
{
    let centered: i32 = val as i32 - 992;
    let scaled32: i32 = if centered >= 0 {
        proof {
            assert(centered * 32767 <= 64543 * 32767) by (nonlinear_arith)
                requires
                    0 <= centered <= 64543,
            ;
        }
        (centered * 32767) / 992
    } else {
        proof {
            assert((-centered) * 32767 <= 992 * 32767) by (nonlinear_arith)
                requires
                    0 < -centered <= 992,
            ;
        }
        -(((-centered) * 32767) / 992)
    };
    proof {
        if centered < 0 {
            assert(((-centered) * 32767) / 992 <= (992 * 32767) / 992) by (nonlinear_arith)
                requires
                    (-centered) * 32767 <= 992 * 32767,
            ;
        }
    }
    let scaled: i16 = if scaled32 > 32767 {
        32767
    } else if scaled32 < -32768 {
        -32768
    } else {
        scaled32 as i16
    };
    if invert {
        -scaled
    } else {
        scaled
    }
}

/// Convert an RC channel value (0-1984) to a trigger value (0-255).
///
/// Total over the full u16 range.
pub fn crsf_to_trigger(val: u16) -> (r: u8)
    ensures
        r as int == crsf_trigger_spec(val),
{
    let t: u32 = (val as u32) * 255 / 1984;
    if t > 255 {
        255
    } else {
        t as u8
    }
}

/// Check if a channel value represents a pressed button: values strictly
/// above the midpoint threshold are pressed.
pub fn crsf_to_button(val: u16) -> (r: bool)
    ensures
        r == (val > BUTTON_THRESHOLD),
{
    val > BUTTON_THRESHOLD
}

/// The button bits contributed by the first `n` button channels: bit `i`
/// is set exactly when button channel `i` addresses a real channel whose
/// value is above the threshold.
pub open spec fn buttons_upto(channels: Seq<u16>, mapping: ChannelMapping, n: int) -> u16
    decreases n,
{
    if n <= 0 {
        0
    } else {
        let i = n - 1;
        let idx = mapping.button_channels[i] as int;
        let bit: u16 = if idx < 16 && channels[idx] > 992 {
            1u16 << (i as u16)
        } else {
            0
        };
        buttons_upto(channels, mapping, i) | bit
    }
}

/// Map RC channel data to a gamepad state using the provided mapping:
/// every analog field is the mapped value of its configured channel, and
/// the button bits come from the eight configured button channels.
pub fn channels_to_gamepad(channels: &[u16; 16], mapping: &ChannelMapping) -> (r: GamepadState)
    requires
        mapping.valid(),
    ensures
        r.left_stick.x as int == crsf_stick_spec(
            channels@[mapping.left_stick_x as int],
            mapping.invert_left_x,
        ),
        r.left_stick.y as int == crsf_stick_spec(
            channels@[mapping.left_stick_y as int],
            mapping.invert_left_y,
        ),
        r.right_stick.x as int == crsf_stick_spec(
            channels@[mapping.right_stick_x as int],
            mapping.invert_right_x,
        ),
        r.right_stick.y as int == crsf_stick_spec(
            channels@[mapping.right_stick_y as int],
            mapping.invert_right_y,
        ),
        r.left_trigger as int == crsf_trigger_spec(channels@[mapping.left_trigger as int]),
        r.right_trigger as int == crsf_trigger_spec(channels@[mapping.right_trigger as int]),
        r.buttons.0 == buttons_upto(channels@, *mapping, 8),
{
    let left_stick = AnalogStick {
        x: crsf_to_stick(channels[mapping.left_stick_x], mapping.invert_left_x),
        y: crsf_to_stick(channels[mapping.left_stick_y], mapping.invert_left_y),
    };
    let right_stick = AnalogStick {
        x: crsf_to_stick(channels[mapping.right_stick_x], mapping.invert_right_x),
        y: crsf_to_stick(channels[mapping.right_stick_y], mapping.invert_right_y),
    };
    let left_trigger = crsf_to_trigger(channels[mapping.left_trigger]);
    let right_trigger = crsf_to_trigger(channels[mapping.right_trigger]);

    let mut buttons: u16 = 0;
    let mut i: usize = 0;
    while i < 8
        invariant
            0 <= i <= 8,
            mapping.valid(),
            buttons == buttons_upto(channels@, *mapping, i as int),
        decreases 8 - i,
    {
        let channel_idx = mapping.button_channels[i];
        let pressed = channel_idx < 16 && crsf_to_button(channels[channel_idx]);
        if pressed {
            buttons = buttons | (1u16 << (i as u16));
        } else {
            proof {
                let prev = buttons;
                assert(prev | 0u16 == prev) by (bit_vector);
            }
        }
        i = i + 1;
    }

    GamepadState {
        buttons: Buttons(buttons),
        left_stick,
        right_stick,
        left_trigger,
        right_trigger,
    }
}

} // verus!
