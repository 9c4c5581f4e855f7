//! HID gamepad report: the fixed 8-byte wire form of a gamepad state
//! for an output device, with stick values scaled from 16 to 8 bits.

use vstd::prelude::*;
use crate::types::GamepadState;

verus! {

/// HID gamepad report: 2 bytes of buttons, four 8-bit stick axes, two
/// 8-bit triggers.
#[derive(Clone, Copy, Debug, PartialEq, Eq, Structural)]
pub struct GamepadReport {
    /// Button bitfield (16 buttons).
    pub buttons: u16,
    /// Left stick X (-128 to 127).
    pub left_stick_x: i8,
    /// Left stick Y (-128 to 127).
    pub left_stick_y: i8,
    /// Right stick X (-128 to 127).
    pub right_stick_x: i8,
    /// Right stick Y (-128 to 127).
    pub right_stick_y: i8,
    /// Left trigger (0-255).
    pub left_trigger: u8,
    /// Right trigger (0-255).
    pub right_trigger: u8,
}

impl GamepadReport {
    /// Size of the report in bytes.
    pub const SIZE: usize = 8;

    /// The report bytes: little-endian buttons, then the four stick
    /// axes reinterpreted as bytes, then the two triggers.
    pub fn as_bytes(&self) -> (r: [u8; 8])
        ensures
            r@ == seq![
                (self.buttons & 0xFF) as u8,
                (self.buttons >> 8) as u8,
                self.left_stick_x as u8,
                self.left_stick_y as u8,
                self.right_stick_x as u8,
                self.right_stick_y as u8,
                self.left_trigger,
                self.right_trigger,
            ],
    {
        let r: [u8; 8] = [
            (self.buttons & 0xFF) as u8,
            (self.buttons >> 8) as u8,
            self.left_stick_x as u8,
            self.left_stick_y as u8,
            self.right_stick_x as u8,
            self.right_stick_y as u8,
            self.left_trigger,
            self.right_trigger,
        ];
        proof {
            assert(r@ =~= seq![
                (self.buttons & 0xFF) as u8,
                (self.buttons >> 8) as u8,
                self.left_stick_x as u8,
                self.left_stick_y as u8,
                self.right_stick_x as u8,
                self.right_stick_y as u8,
                self.left_trigger,
                self.right_trigger,
            ]);
        }
        r
    }

    /// Neutral/zero report.
    pub fn neutral() -> (r: GamepadReport)
        ensures
            r.buttons == 0,
            r.left_stick_x == 0,
            r.left_stick_y == 0,
            r.right_stick_x == 0,
            r.right_stick_y == 0,
            r.left_trigger == 0,
            r.right_trigger == 0,
    {
        GamepadReport {
            buttons: 0,
            left_stick_x: 0,
            left_stick_y: 0,
            right_stick_x: 0,
            right_stick_y: 0,
            left_trigger: 0,
            right_trigger: 0,
        }
    }

    /// Build a report from a gamepad state, scaling each 16-bit stick
    /// axis to 8 bits by taking its high byte.
    pub fn from_state(state: &GamepadState) -> (r: GamepadReport)
        ensures
            r.buttons == state.buttons.0,
            r.left_stick_x as int == state.left_stick.x as int / 256,
            r.left_stick_y as int == state.left_stick.y as int / 256,
            r.right_stick_x as int == state.right_stick.x as int / 256,
            r.right_stick_y as int == state.right_stick.y as int / 256,
            r.left_trigger == state.left_trigger,
            r.right_trigger == state.right_trigger,
    {
        proof {
            lemma_i16_shr8(state.left_stick.x);
            lemma_i16_shr8(state.left_stick.y);
            lemma_i16_shr8(state.right_stick.x);
            lemma_i16_shr8(state.right_stick.y);
        }
        GamepadReport {
            buttons: state.buttons.raw(),
            left_stick_x: (state.left_stick.x >> 8u16) as i8,
            left_stick_y: (state.left_stick.y >> 8u16) as i8,
            right_stick_x: (state.right_stick.x >> 8u16) as i8,
            right_stick_y: (state.right_stick.y >> 8u16) as i8,
            left_trigger: state.left_trigger,
            right_trigger: state.right_trigger,
        }
    }
}

/// An arithmetic right shift by 8 of a 16-bit value is its floor
/// division by 256, and fits in 8 bits.
proof fn lemma_i16_shr8(v: i16)
    ensures
        -128 <= (v >> 8u16) <= 127,
        (v >> 8u16) as int == v as int / 256,
{
    assert(-128 <= (v >> 8u16) <= 127) by (bit_vector);
    assert((v >> 8u16) as int == v as int / 256) by (bit_vector);
}

} // verus!
