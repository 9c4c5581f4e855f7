//! Telemetry types, interfaces, and the RC-link telemetry encoder.
//!
//! `encode_telemetry` converts telemetry values from this crate's units
//! to the RC link's units and delegates the byte-level framing of the
//! resulting packet to the `uf_crsf` crate: battery voltage and current
//! from milli-units to 10 mV / 10 mA units, ground speed from m/s to
//! 0.01 km/h, altitude offset by +1000 m, and attitude angles from
//! centidegrees to the link's radian-scaled units.

use vstd::prelude::*;

verus! {

/// Maximum size for an encoded telemetry frame.
pub const MAX_TELEMETRY_FRAME_SIZE: usize = 64;

/// Telemetry data that can be sent back to the transmitter or ground
/// station.
#[derive(Debug, Clone, Copy)]
pub enum TelemetryData {
    /// Battery status telemetry.
    Battery {
        /// Voltage in millivolts.
        voltage_mv: u16,
        /// Current draw in milliamps.
        current_ma: u16,
        /// Remaining capacity percentage (0-100).
        remaining_pct: u8,
    },
    /// GPS position telemetry.
    Gps {
        /// Latitude in degrees * 1e7.
        lat: i32,
        /// Longitude in degrees * 1e7.
        lon: i32,
        /// Altitude in meters.
        alt_m: i16,
        /// Ground speed in m/s.
        speed_mps: u8,
        /// Number of satellites.
        sats: u8,
    },
    /// Attitude (orientation) telemetry.
    Attitude {
        /// Roll angle in degrees * 100.
        roll: i16,
        /// Pitch angle in degrees * 100.
        pitch: i16,
        /// Yaw angle in degrees * 100.
        yaw: i16,
    },
    /// RF link quality telemetry.
    LinkQuality {
        /// Received signal strength indicator (dBm, typically negative).
        rssi: i8,
        /// Signal-to-noise ratio in dB.
        snr: i8,
        /// Link quality percentage (0-100).
        lq: u8,
    },
}

/// Error type for telemetry operations.
#[derive(Debug, Clone, Copy, PartialEq, Eq, Structural)]
pub enum TelemetryError {
    /// Telemetry not supported by this protocol/transport.
    NotSupported,
    /// I/O error during transmission.
    Io,
    /// Transmit buffer is full.
    BufferFull,
}

/// Interface for sending telemetry data back through the input channel,
/// for input sources that support bidirectional communication.
pub trait TelemetrySink {
    /// Send telemetry data.
    fn send_telemetry(&mut self, data: &TelemetryData) -> Result<(), TelemetryError>;

    /// Check if this sink supports telemetry transmission.
    fn supports_telemetry(&self) -> bool;
}

/// Interface for receiving telemetry data from an external source:
/// a host forwarding telemetry, a sensor link, or mock data.
pub trait TelemetrySource {
    /// Try to receive the next telemetry data; `None` if no telemetry is
    /// available.
    fn receive(&mut self) -> Option<TelemetryData>;
}

/// Mock telemetry source that never produces data.
pub struct MockTelemetrySource;

impl TelemetrySource for MockTelemetrySource {
    fn receive(&mut self) -> (r: Option<TelemetryData>)
        ensures
            r is None,
    {
        None
    }
}

/// Null telemetry sink that rejects all data.
pub struct NullTelemetrySink;

impl TelemetrySink for NullTelemetrySink {
    fn send_telemetry(&mut self, data: &TelemetryData) -> (r: Result<(), TelemetryError>)
        ensures
            r == Err::<(), TelemetryError>(TelemetryError::NotSupported),
    {
        Err(TelemetryError::NotSupported)
    }

    fn supports_telemetry(&self) -> (r: bool)
        ensures
            !r,
    {
        false
    }
}

/// The bytes of a framed RC-link battery packet with the given fields.
pub uninterp spec fn battery_frame(voltage: i16, current: i16, capacity_used: u32, remaining: u8) -> Seq<u8>;

/// The bytes of a framed RC-link GPS packet with the given fields.
pub uninterp spec fn gps_frame(lat: i32, lon: i32, groundspeed: u16, heading: u16, altitude: u16, sats: u8) -> Seq<u8>;

/// The bytes of a framed RC-link attitude packet with the given fields.
pub uninterp spec fn attitude_frame(pitch: i16, roll: i16, yaw: i16) -> Seq<u8>;

/// Relies on uf_crsf's `Battery::new`, which accepts every field value,
/// and `write_packet_to_buffer`, which frames the 8-byte battery payload
/// as a 12-byte packet addressed to the flight controller, fails with a
/// buffer overflow exactly when the buffer is smaller than that, and
/// writes nothing before that check.
#[verifier::external_body]
fn write_battery_frame(
    buf: &mut [u8],
    voltage: i16,
    current: i16,
    capacity_used: u32,
    remaining: u8,
) -> (r: Result<usize, TelemetryError>)
    ensures
        (r is Ok) <==> old(buf)@.len() >= 12,
        (r is Err) ==> (r == Err::<usize, TelemetryError>(TelemetryError::BufferFull)
            && final(buf)@ == old(buf)@),
        (r is Ok) ==> ({
            &&& r.unwrap() == 12
            &&& battery_frame(voltage, current, capacity_used, remaining).len() == 12
            &&& final(buf)@.len() == old(buf)@.len()
            &&& final(buf)@.subrange(0, 12) == battery_frame(
                voltage,
                current,
                capacity_used,
                remaining,
            )
            &&& final(buf)@.skip(12) == old(buf)@.skip(12)
        }),
{
    match uf_crsf::packets::Battery::new(voltage, current, capacity_used, remaining) {
        Ok(packet) => {
            match uf_crsf::packets::write_packet_to_buffer(
                buf,
                uf_crsf::packets::PacketAddress::FlightController,
                &packet,
            ) {
                Ok(n) => Ok(n),
                Err(_) => Err(TelemetryError::BufferFull),
            }
        },
        Err(_) => Err(TelemetryError::Io),
    }
}

/// Relies on uf_crsf's `Gps::new`, which accepts every field value, and
/// `write_packet_to_buffer`, which frames the 15-byte GPS payload as a
/// 19-byte packet addressed to the flight controller, fails with a
/// buffer overflow exactly when the buffer is smaller than that, and
/// writes nothing before that check.
#[verifier::external_body]
fn write_gps_frame(
    buf: &mut [u8],
    lat: i32,
    lon: i32,
    groundspeed: u16,
    heading: u16,
    altitude: u16,
    sats: u8,
) -> (r: Result<usize, TelemetryError>)
    ensures
        (r is Ok) <==> old(buf)@.len() >= 19,
        (r is Err) ==> (r == Err::<usize, TelemetryError>(TelemetryError::BufferFull)
            && final(buf)@ == old(buf)@),
        (r is Ok) ==> ({
            &&& r.unwrap() == 19
            &&& gps_frame(lat, lon, groundspeed, heading, altitude, sats).len() == 19
            &&& final(buf)@.len() == old(buf)@.len()
            &&& final(buf)@.subrange(0, 19) == gps_frame(
                lat,
                lon,
                groundspeed,
                heading,
                altitude,
                sats,
            )
            &&& final(buf)@.skip(19) == old(buf)@.skip(19)
        }),
{
    match uf_crsf::packets::Gps::new(lat, lon, groundspeed, heading, altitude, sats) {
        Ok(packet) => {
            match uf_crsf::packets::write_packet_to_buffer(
                buf,
                uf_crsf::packets::PacketAddress::FlightController,
                &packet,
            ) {
                Ok(n) => Ok(n),
                Err(_) => Err(TelemetryError::BufferFull),
            }
        },
        Err(_) => Err(TelemetryError::Io),
    }
}

/// Relies on uf_crsf's `Attitude::new`, which accepts every field value,
/// and `write_packet_to_buffer`, which frames the 6-byte attitude
/// payload as a 10-byte packet addressed to the flight controller, fails
/// with a buffer overflow exactly when the buffer is smaller than that,
/// and writes nothing before that check.
#[verifier::external_body]
fn write_attitude_frame(buf: &mut [u8], pitch: i16, roll: i16, yaw: i16) -> (r: Result<
    usize,
    TelemetryError,
>)
    ensures
        (r is Ok) <==> old(buf)@.len() >= 10,
        (r is Err) ==> (r == Err::<usize, TelemetryError>(TelemetryError::BufferFull)
            && final(buf)@ == old(buf)@),
        (r is Ok) ==> ({
            &&& r.unwrap() == 10
            &&& attitude_frame(pitch, roll, yaw).len() == 10
            &&& final(buf)@.len() == old(buf)@.len()
            &&& final(buf)@.subrange(0, 10) == attitude_frame(pitch, roll, yaw)
            &&& final(buf)@.skip(10) == old(buf)@.skip(10)
        }),
{
    match uf_crsf::packets::Attitude::new(pitch, roll, yaw) {
        Ok(packet) => {
            match uf_crsf::packets::write_packet_to_buffer(
                buf,
                uf_crsf::packets::PacketAddress::FlightController,
                &packet,
            ) {
                Ok(n) => Ok(n),
                Err(_) => Err(TelemetryError::BufferFull),
            }
        },
        Err(_) => Err(TelemetryError::Io),
    }
}

/// Truncating scaling of a centidegree angle to the RC link's
/// radian-scaled units: multiply by 1745, divide by 1000, and wrap into
/// 16 bits.
pub open spec fn angle_scale(v: int) -> int {
    if v >= 0 {
        v * 1745 / 1000
    } else {
        -((-v) * 1745 / 1000)
    }
}

/// The angle field sent for a centidegree value.
pub open spec fn angle_units(v: i16) -> i16 {
    (angle_scale(v as int)) as i16
}

/// Convert a centidegree angle to the RC link's radian-scaled units.
fn angle_to_units(v: i16) -> (r: i16)
    ensures
        r == angle_units(v),
{
    if v >= 0 {
        proof {
            assert((v as i32) * 1745 / 1000 <= 32767 * 1745 / 1000) by (nonlinear_arith)
                requires
                    0 <= v as i32 <= 32767,
            ;
        }
        #[verifier::truncate] (((v as i32) * 1745 / 1000) as i16)
    } else {
        proof {
            assert((-(v as i32)) * 1745 / 1000 <= 32768 * 1745 / 1000) by (nonlinear_arith)
                requires
                    0 < -(v as i32) <= 32768,
            ;
        }
        #[verifier::truncate] ((-((-(v as i32)) * 1745 / 1000)) as i16)
    }
}

/// The altitude field: reinterpreted as unsigned, offset by +1000 m,
/// saturating at the 16-bit maximum.
pub open spec fn altitude_units(alt_m: i16) -> u16 {
    let a = alt_m as u16;
    if a > 64535 {
        65535
    } else {
        (a + 1000) as u16
    }
}

/// Encode telemetry data as one RC-link packet into `buf`.
///
/// Converts the fields from this crate's units to the link's units and
/// frames them: battery voltage/current in 10 mV / 10 mA units, ground
/// speed in 0.01 km/h, altitude offset by +1000 m, attitude angles in
/// radian-scaled units. Link-quality telemetry is not supported and is
/// rejected. Returns the number of bytes written, or a buffer-full error
/// when `buf` is smaller than the packet.
pub fn encode_telemetry(data: &TelemetryData, buf: &mut [u8]) -> (r: Result<
    usize,
    TelemetryError,
>)
    requires
        (match *data {
            TelemetryData::Gps { speed_mps, .. } => speed_mps <= 182,
            _ => true,
        }),
    ensures
        (match *data {
            TelemetryData::Battery { voltage_mv, current_ma, remaining_pct } => {
                &&& ((r is Ok) <==> old(buf)@.len() >= 12)
                &&& ((r is Err) ==> r == Err::<usize, TelemetryError>(TelemetryError::BufferFull))
                &&& ((r is Ok) ==> (r.unwrap() == 12 && final(buf)@.subrange(0, 12)
                    == battery_frame(
                    (voltage_mv / 10) as i16,
                    (current_ma / 10) as i16,
                    0,
                    remaining_pct,
                )))
            },
            TelemetryData::Gps { lat, lon, alt_m, speed_mps, sats } => {
                &&& ((r is Ok) <==> old(buf)@.len() >= 19)
                &&& ((r is Err) ==> r == Err::<usize, TelemetryError>(TelemetryError::BufferFull))
                &&& ((r is Ok) ==> (r.unwrap() == 19 && final(buf)@.subrange(0, 19) == gps_frame(
                    lat,
                    lon,
                    (speed_mps * 360) as u16,
                    0,
                    altitude_units(alt_m),
                    sats,
                )))
            },
            TelemetryData::Attitude { roll, pitch, yaw } => {
                &&& ((r is Ok) <==> old(buf)@.len() >= 10)
                &&& ((r is Err) ==> r == Err::<usize, TelemetryError>(TelemetryError::BufferFull))
                &&& ((r is Ok) ==> (r.unwrap() == 10 && final(buf)@.subrange(0, 10)
                    == attitude_frame(angle_units(pitch), angle_units(roll), angle_units(yaw))))
            },
            TelemetryData::LinkQuality { .. } => r == Err::<usize, TelemetryError>(
                TelemetryError::NotSupported,
            ),
        }),
{
    match data {
        TelemetryData::Battery { voltage_mv, current_ma, remaining_pct } => {
            let voltage: i16 = (*voltage_mv / 10) as i16;
            let current: i16 = (*current_ma / 10) as i16;
            write_battery_frame(buf, voltage, current, 0, *remaining_pct)
        },
        TelemetryData::Gps { lat, lon, alt_m, speed_mps, sats } => {
            let groundspeed: u16 = (*speed_mps as u16) * 360;
            let au: u16 = *alt_m as u16;
            let altitude: u16 = if au > 64535 {
                65535
            } else {
                au + 1000
            };
            write_gps_frame(buf, *lat, *lon, groundspeed, 0, altitude, *sats)
        },
        TelemetryData::Attitude { roll, pitch, yaw } => {
            let roll_units = angle_to_units(*roll);
            let pitch_units = angle_to_units(*pitch);
            let yaw_units = angle_to_units(*yaw);
            write_attitude_frame(buf, pitch_units, roll_units, yaw_units)
        },
        TelemetryData::LinkQuality { .. } => Err(TelemetryError::NotSupported),
    }
}

} // verus!
