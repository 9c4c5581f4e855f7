//! Protocol layer for a gamepad bridge.
//!
//! This crate provides a canonical, fixed-size gamepad state model and
//! the protocol machinery around it:
//!
//! - **Types** ([`GamepadState`], [`Buttons`], [`AnalogStick`],
//!   [`GamepadFieldUpdate`]): the canonical state every input protocol
//!   converges to and every output sink consumes.
//! - **ASCII codec** ([`parse`], [`parse_message`], serialization on the
//!   state types, [`MessageBuilder`]): a line protocol with two message
//!   kinds, full state (`G` prefix) and single-field update (`U`
//!   prefix), checksum-verified with a XOR fold.
//! - **Binary frame parser** ([`MavlinkParser`]): a byte-stream state
//!   machine for a MAVLink subset with CRC-16 verification.
//! - **Protocol mappers** ([`channels_to_gamepad`],
//!   [`manual_control_to_gamepad`]): pure functions from raw RC-channel
//!   and binary-link values to the canonical state.
//! - **Bridge** ([`GamepadBridge`]): couples an input source to an
//!   output sink with fail-safe semantics; on any input failure the
//!   neutral state is forwarded so stale inputs never persist.
//! - **Telemetry** ([`encode_telemetry`]): encodes battery, GPS and
//!   attitude reports for the RC-link backchannel.
//!
//! Everything works on caller-provided fixed buffers, without heap
//! growth, so the crate remains usable on small targets and is
//! independently testable off-target.

use vstd::prelude::*;

pub mod bridge;
pub mod builder;
pub mod checksum;
pub mod crsf_mapping;
pub mod input;
pub mod laws;
pub mod mav_mapping;
pub mod mavlink;
pub mod output;
pub mod parser;
pub mod report;
pub mod serialize;
pub mod telemetry;
pub mod textfmt;
pub mod types;

pub use bridge::{BridgeError, GamepadBridge};
pub use builder::{serialize_full_state, FullStateBuilder, MessageBuilder, UpdateBuilder};
pub use checksum::{calculate_checksum, calculate_crc8, Crc8Digest};
pub use crsf_mapping::{
    channels_to_gamepad, crsf_to_button, crsf_to_stick, crsf_to_trigger, default_mapping,
    ChannelMapping, BUTTON_THRESHOLD, CRSF_CENTER, CRSF_MAX, CRSF_MIN,
};
pub use input::{InputError, InputSource};
pub use mav_mapping::{
    default_axis_mapping, manual_control_to_gamepad, mavlink_to_buttons, mavlink_to_stick,
    mavlink_z_to_trigger, AxisMapping, MAVLINK_AXIS_MAX, MAVLINK_AXIS_MIN, MAVLINK_Z_MAX,
    MAVLINK_Z_MIN,
};
pub use mavlink::{
    ManualControl, MavMessage, MavlinkParser, ParseError, MAVLINK_STX_V1, MAVLINK_STX_V2,
    MAX_FRAME_SIZE, MSG_ID_HEARTBEAT, MSG_ID_MANUAL_CONTROL,
};
pub use output::{OutputError, OutputSink};
pub use parser::{parse, parse_message, ParsedMessage, MAX_LINE_LENGTH};
pub use report::GamepadReport;
pub use serialize::{SerializeError, MAX_FULL_STATE_SIZE, MAX_UPDATE_SIZE};
pub use telemetry::{
    encode_telemetry, MockTelemetrySource, NullTelemetrySink, TelemetryData, TelemetryError,
    TelemetrySink, TelemetrySource, MAX_TELEMETRY_FRAME_SIZE,
};
pub use types::{AnalogStick, Buttons, GamepadFieldUpdate, GamepadState};

verus! {

/// RC-link baud rate for ExpressLRS receivers.
pub const CRSF_BAUDRATE_ELRS: u32 = 420000;

/// RC-link baud rate for TBS Crossfire receivers.
pub const CRSF_BAUDRATE_TBS: u32 = 416666;

/// Common MAVLink baud rate for telemetry radios.
pub const MAVLINK_BAUDRATE_TELEMETRY: u32 = 57600;

/// Common MAVLink baud rate for direct serial connections.
pub const MAVLINK_BAUDRATE_SERIAL: u32 = 115200;

} // verus!
