//! `GamepadBridge`: couples an input source to an output sink.
//!
//! Each cycle receives one state from the input and forwards it to the
//! output. On an input failure the bridge forwards the neutral state
//! instead, best-effort, so an output consumer never holds a stale
//! pressed or deflected state when the input channel degrades, and
//! reports the original input error to its caller.

use vstd::prelude::*;
use crate::input::{InputError, InputSource};
use crate::output::{OutputError, OutputSink};
use crate::types::{neutral_state, GamepadState};

verus! {

/// Error type for bridge operations.
#[derive(Debug, Clone, Copy, PartialEq, Eq, Structural)]
pub enum BridgeError {
    /// Error from the input source.
    Input(InputError),
    /// Error from the output sink.
    Output(OutputError),
}

/// The state a bridge forwards for a given input outcome: the received
/// state on success, the neutral fail-safe state on any input error.
pub open spec fn forwarded_state(received: Result<GamepadState, InputError>) -> GamepadState {
    match received {
        Ok(s) => s,
        Err(_) => neutral_state(),
    }
}

/// Pick the state to forward for one input outcome.
///
/// On success this is the received state; on any input failure it is the
/// neutral fail-safe state, so stale inputs never persist downstream.
pub fn state_to_forward(received: &Result<GamepadState, InputError>) -> (r: GamepadState)
    ensures
        r == forwarded_state(*received),
{
    match received {
        Ok(s) => *s,
        Err(_) => GamepadState::neutral(),
    }
}

/// A bridge that forwards gamepad state from an input source to an
/// output sink, decoupling the two implementations.
pub struct GamepadBridge<I, O> {
    input: I,
    output: O,
}

impl<I: InputSource, O: OutputSink> GamepadBridge<I, O> {
    /// Create a new bridge from an input source and output sink.
    pub fn new(input: I, output: O) -> GamepadBridge<I, O> {
        GamepadBridge { input, output }
    }

    /// Process a single input and forward it to the output.
    ///
    /// On input success the received state is sent, and a sink failure is
    /// reported unchanged as `BridgeError::Output`. On input failure the
    /// neutral state is sent best-effort (its own outcome is discarded)
    /// and the original input error is reported as `BridgeError::Input`.
    pub fn process_one(&mut self) -> Result<(), BridgeError> {
        let received = self.input.receive();
        let state = state_to_forward(&received);
        match received {
            Ok(_) => {
                match self.output.send(&state) {
                    Ok(_) => Ok(()),
                    Err(e) => Err(BridgeError::Output(e)),
                }
            },
            Err(e) => {
                let _ = self.output.send(&state);
                Err(BridgeError::Input(e))
            },
        }
    }

    /// Get a reference to the input source.
    pub fn input(&self) -> &I {
        &self.input
    }

    /// Get a mutable reference to the input source.
    pub fn input_mut(&mut self) -> &mut I {
        &mut self.input
    }

    /// Get a reference to the output sink.
    pub fn output(&self) -> &O {
        &self.output
    }

    /// Get a mutable reference to the output sink.
    pub fn output_mut(&mut self) -> &mut O {
        &mut self.output
    }

    /// Decompose the bridge into its input and output components.
    pub fn into_parts(self) -> (I, O) {
        (self.input, self.output)
    }
}

} // verus!
