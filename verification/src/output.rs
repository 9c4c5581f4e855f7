//! Output sink interface and error types.

use vstd::prelude::*;
use crate::types::GamepadState;

verus! {

/// Error type for output operations.
#[derive(Clone, Copy, Debug, PartialEq, Eq, Structural)]
pub enum OutputError {
    /// Transport/communication I/O error.
    Io,
    /// Device not ready (e.g., not yet enumerated).
    NotReady,
    /// Report dropped (e.g., host not polling fast enough).
    Dropped,
    /// Endpoint busy.
    Busy,
}

/// Interface for gamepad output sinks.
///
/// This abstracts the destination for gamepad data, enabling different
/// output methods (HID device, serial debug, mock) to be used
/// interchangeably. `send` may block until the previous report is out.
pub trait OutputSink {
    /// Send a gamepad state to the output.
    fn send(&mut self, state: &GamepadState) -> Result<(), OutputError>;

    /// Check if the output is ready to accept data.
    fn is_ready(&self) -> bool;
}

} // verus!
