//! Input source interface and error types.

use vstd::prelude::*;
use crate::types::GamepadState;

verus! {

/// Error type for input operations.
#[derive(Clone, Copy, Debug, PartialEq, Eq, Structural)]
pub enum InputError {
    /// Transport/communication I/O error.
    Io,
    /// Protocol parsing error (invalid format).
    Parse,
    /// Checksum mismatch.
    Checksum,
    /// Connection lost / timeout.
    Disconnected,
    /// Buffer overflow (line too long).
    BufferOverflow,
    /// Transport framing error.
    Framing,
}

/// Interface for gamepad input sources.
///
/// This abstracts the source of gamepad data, allowing different
/// implementations (serial, network, mock) to be used interchangeably.
/// `receive` may block until the next state is available.
pub trait InputSource {
    /// Wait for and receive the next gamepad state update.
    fn receive(&mut self) -> Result<GamepadState, InputError>;

    /// Check if the input source is connected/ready.
    fn is_connected(&self) -> bool;
}

} // verus!
