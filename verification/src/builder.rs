//! Builder API for constructing protocol messages.
//!
//! A fluent builder over both message kinds: a full-state builder that
//! materializes a complete `GamepadState`, defaulting to neutral for
//! unset fields, and an update builder that keeps exactly the last field
//! set (calling several setters keeps only the most recent).

use vstd::prelude::*;
use vstd::utf8::decode_utf8;
use crate::serialize::{SerializeError, MAX_FULL_STATE_SIZE, MAX_UPDATE_SIZE, full_msg, update_msg};
use crate::types::{AnalogStick, Buttons, GamepadFieldUpdate, GamepadState, neutral_state};

verus! {

/// Entry point for building protocol messages.
///
/// Use `MessageBuilder::full_state()` to build a full state message, or
/// `MessageBuilder::update()` to build an incremental update message.
pub struct MessageBuilder;

impl MessageBuilder {
    /// Start building a full state message, with neutral values for
    /// every field not set.
    pub fn full_state() -> (r: FullStateBuilder)
        ensures
            r.state == neutral_state(),
    {
        FullStateBuilder { state: GamepadState::neutral() }
    }

    /// Start building an incremental update message; exactly one field
    /// setter must be called before serializing.
    pub fn update() -> (r: UpdateBuilder)
        ensures
            r.update is None,
    {
        UpdateBuilder { update: None }
    }
}

/// Builder for full state messages, created via
/// `MessageBuilder::full_state()`.
#[derive(Debug, Clone, Copy)]
pub struct FullStateBuilder {
    pub state: GamepadState,
}

impl FullStateBuilder {
    /// Set the button state.
    pub fn buttons(self, buttons: Buttons) -> (r: FullStateBuilder)
        ensures
            r.state == (GamepadState { buttons, ..self.state }),
    {
        FullStateBuilder { state: GamepadState { buttons, ..self.state } }
    }

    /// Set the left stick position.
    pub fn left_stick(self, x: i16, y: i16) -> (r: FullStateBuilder)
        ensures
            r.state == (GamepadState { left_stick: AnalogStick { x, y }, ..self.state }),
    {
        FullStateBuilder { state: GamepadState { left_stick: AnalogStick { x, y }, ..self.state } }
    }

    /// Set the right stick position.
    pub fn right_stick(self, x: i16, y: i16) -> (r: FullStateBuilder)
        ensures
            r.state == (GamepadState { right_stick: AnalogStick { x, y }, ..self.state }),
    {
        FullStateBuilder {
            state: GamepadState { right_stick: AnalogStick { x, y }, ..self.state },
        }
    }

    /// Set the left trigger value.
    pub fn left_trigger(self, value: u8) -> (r: FullStateBuilder)
        ensures
            r.state == (GamepadState { left_trigger: value, ..self.state }),
    {
        FullStateBuilder { state: GamepadState { left_trigger: value, ..self.state } }
    }

    /// Set the right trigger value.
    pub fn right_trigger(self, value: u8) -> (r: FullStateBuilder)
        ensures
            r.state == (GamepadState { right_trigger: value, ..self.state }),
    {
        FullStateBuilder { state: GamepadState { right_trigger: value, ..self.state } }
    }

    /// Set both triggers at once.
    pub fn triggers(self, left: u8, right: u8) -> (r: FullStateBuilder)
        ensures
            r.state == (GamepadState { left_trigger: left, right_trigger: right, ..self.state }),
    {
        FullStateBuilder {
            state: GamepadState { left_trigger: left, right_trigger: right, ..self.state },
        }
    }

    /// Get the built state without serializing.
    pub fn build(self) -> (r: GamepadState)
        ensures
            r == self.state,
    {
        self.state
    }

    /// Serialize the built state to the provided buffer, returning the
    /// number of bytes written.
    pub fn serialize(self, buf: &mut [u8]) -> (r: Result<usize, SerializeError>)
        ensures
            (r is Ok) <==> old(buf)@.len() >= MAX_FULL_STATE_SIZE,
            (r is Err) ==> r == Err::<usize, SerializeError>(SerializeError::BufferTooSmall),
            (r is Ok) ==> ({
                &&& r.unwrap() == full_msg(self.state).len()
                &&& final(buf)@.subrange(0, r.unwrap() as int) == full_msg(self.state)
                &&& final(buf)@.len() == old(buf)@.len()
            }),
    {
        self.state.serialize(buf)
    }

    /// Serialize the built state as a full-state message appended to a
    /// string; always succeeds.
    pub fn serialize_fmt(self, writer: &mut String) -> (r: Result<(), SerializeError>)
        ensures
            r == Ok::<(), SerializeError>(()),
            final(writer)@ == old(writer)@ + decode_utf8(full_msg(self.state)),
    {
        self.state.serialize_fmt(writer)
    }
}

/// Builder for incremental update messages, created via
/// `MessageBuilder::update()`.
///
/// Exactly one field setter should be called; calling several keeps only
/// the last one.
#[derive(Debug, Clone, Copy)]
pub struct UpdateBuilder {
    pub update: Option<GamepadFieldUpdate>,
}

impl UpdateBuilder {
    /// Set the update to a buttons change.
    pub fn buttons(self, buttons: Buttons) -> (r: UpdateBuilder)
        ensures
            r.update == Some(GamepadFieldUpdate::Buttons(buttons)),
    {
        UpdateBuilder { update: Some(GamepadFieldUpdate::Buttons(buttons)) }
    }

    /// Set the update to a left stick X change.
    pub fn left_stick_x(self, value: i16) -> (r: UpdateBuilder)
        ensures
            r.update == Some(GamepadFieldUpdate::LeftStickX(value)),
    {
        UpdateBuilder { update: Some(GamepadFieldUpdate::LeftStickX(value)) }
    }

    /// Set the update to a left stick Y change.
    pub fn left_stick_y(self, value: i16) -> (r: UpdateBuilder)
        ensures
            r.update == Some(GamepadFieldUpdate::LeftStickY(value)),
    {
        UpdateBuilder { update: Some(GamepadFieldUpdate::LeftStickY(value)) }
    }

    /// Set the update to a right stick X change.
    pub fn right_stick_x(self, value: i16) -> (r: UpdateBuilder)
        ensures
            r.update == Some(GamepadFieldUpdate::RightStickX(value)),
    {
        UpdateBuilder { update: Some(GamepadFieldUpdate::RightStickX(value)) }
    }

    /// Set the update to a right stick Y change.
    pub fn right_stick_y(self, value: i16) -> (r: UpdateBuilder)
        ensures
            r.update == Some(GamepadFieldUpdate::RightStickY(value)),
    {
        UpdateBuilder { update: Some(GamepadFieldUpdate::RightStickY(value)) }
    }

    /// Set the update to a left trigger change.
    pub fn left_trigger(self, value: u8) -> (r: UpdateBuilder)
        ensures
            r.update == Some(GamepadFieldUpdate::LeftTrigger(value)),
    {
        UpdateBuilder { update: Some(GamepadFieldUpdate::LeftTrigger(value)) }
    }

    /// Set the update to a right trigger change.
    pub fn right_trigger(self, value: u8) -> (r: UpdateBuilder)
        ensures
            r.update == Some(GamepadFieldUpdate::RightTrigger(value)),
    {
        UpdateBuilder { update: Some(GamepadFieldUpdate::RightTrigger(value)) }
    }

    /// Get the built update without serializing; `None` if no field was
    /// set.
    pub fn build(self) -> (r: Option<GamepadFieldUpdate>)
        ensures
            r == self.update,
    {
        self.update
    }

    /// Serialize the built update to the provided buffer, returning the
    /// number of bytes written. Fails if no field was set, or if the
    /// buffer is too small.
    pub fn serialize(self, buf: &mut [u8]) -> (r: Result<usize, SerializeError>)
        ensures
            (r is Ok) <==> ((self.update is Some) && old(buf)@.len() >= MAX_UPDATE_SIZE),
            (r is Err) ==> r == Err::<usize, SerializeError>(SerializeError::BufferTooSmall),
            (r is Ok) ==> ({
                &&& r.unwrap() == update_msg(self.update.unwrap()).len()
                &&& final(buf)@.subrange(0, r.unwrap() as int) == update_msg(self.update.unwrap())
                &&& final(buf)@.len() == old(buf)@.len()
            }),
    {
        match self.update {
            Some(u) => u.serialize(buf),
            None => Err(SerializeError::BufferTooSmall),
        }
    }

    /// Serialize the built update as an update message appended to a
    /// string; fails exactly when no field was set.
    pub fn serialize_fmt(self, writer: &mut String) -> (r: Result<(), SerializeError>)
        ensures
            (r is Ok) <==> (self.update is Some),
            (r is Err) ==> (r == Err::<(), SerializeError>(SerializeError::BufferTooSmall)
                && final(writer)@ == old(writer)@),
            (r is Ok) ==> final(writer)@ == old(writer)@ + decode_utf8(
                update_msg(self.update.unwrap()),
            ),
    {
        match self.update {
            Some(u) => u.serialize_fmt(writer),
            None => Err(SerializeError::BufferTooSmall),
        }
    }
}

/// Serialize a full state built from the given values: equivalent to the
/// full-state builder with every field set.
pub fn serialize_full_state(
    buf: &mut [u8],
    buttons: Buttons,
    lx: i16,
    ly: i16,
    rx: i16,
    ry: i16,
    lt: u8,
    rt: u8,
) -> (r: Result<usize, SerializeError>)
    ensures
        (r is Ok) <==> old(buf)@.len() >= MAX_FULL_STATE_SIZE,
        (r is Err) ==> r == Err::<usize, SerializeError>(SerializeError::BufferTooSmall),
        (r is Ok) ==> ({
            let state = GamepadState {
                buttons,
                left_stick: AnalogStick { x: lx, y: ly },
                right_stick: AnalogStick { x: rx, y: ry },
                left_trigger: lt,
                right_trigger: rt,
            };
            r.unwrap() == full_msg(state).len() && final(buf)@.subrange(0, r.unwrap() as int)
                == full_msg(state) && final(buf)@.len() == old(buf)@.len()
        }),
{
    MessageBuilder::full_state().buttons(buttons).left_stick(lx, ly).right_stick(rx, ry).triggers(
        lt,
        rt,
    ).serialize(buf)
}

} // verus!
