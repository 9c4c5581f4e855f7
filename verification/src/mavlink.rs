//! Minimal MAVLink parser for MANUAL_CONTROL messages.
//!
//! A single-byte-at-a-time state machine over the two MAVLink wire-format
//! variants: a `0xFE` start byte selects a 6-byte header, a `0xFD` start
//! byte a 10-byte header. After the header, the declared payload length
//! plus a trailing 2-byte CRC fix the total frame length. On a complete
//! frame the message id selects a per-message CRC seed ("CRC extra") for
//! the two recognized kinds, heartbeat and manual-control; any other id
//! is surfaced as an opaque unknown result without CRC verification.
//! After any terminal outcome the parser returns to waiting for a start
//! byte, so a malformed frame never corrupts parsing of the next one.

use vstd::prelude::*;

verus! {

/// MAVLink 1 start byte.
pub const MAVLINK_STX_V1: u8 = 0xFE;

/// MAVLink 2 start byte.
pub const MAVLINK_STX_V2: u8 = 0xFD;

/// MANUAL_CONTROL message ID.
pub const MSG_ID_MANUAL_CONTROL: u32 = 69;

/// HEARTBEAT message ID.
pub const MSG_ID_HEARTBEAT: u32 = 0;

/// Maximum MAVLink frame size.
pub const MAX_FRAME_SIZE: usize = 280;

/// Minimum frame size (MAVLink 1 with empty payload).
pub const MIN_FRAME_V1: usize = 8;

/// Minimum frame size (MAVLink 2 with empty payload).
pub const MIN_FRAME_V2: usize = 12;

/// CRC-16/MCRF4XX seed value.
pub const CRC_INIT: u16 = 0xFFFF;

/// MANUAL_CONTROL CRC_EXTRA value.
pub const CRC_EXTRA_MANUAL_CONTROL: u8 = 243;

/// HEARTBEAT CRC_EXTRA value.
pub const CRC_EXTRA_HEARTBEAT: u8 = 50;

/// Parsed MANUAL_CONTROL message: target system, four signed axes, and
/// two button bitfields (the second is zero for short payloads).
#[derive(Debug, Clone, Copy, PartialEq, Eq, Structural)]
pub struct ManualControl {
    /// Target system ID.
    pub target: u8,
    /// X-axis (-1000 to 1000).
    pub x: i16,
    /// Y-axis (-1000 to 1000).
    pub y: i16,
    /// Z-axis (0 to 1000 for thrust).
    pub z: i16,
    /// R-axis (-1000 to 1000 for yaw).
    pub r: i16,
    /// Buttons bitfield.
    pub buttons: u16,
    /// Extended buttons bitfield (MAVLink 2).
    pub buttons2: u16,
}

/// Parsed MAVLink message.
#[derive(Debug, Clone, Copy, PartialEq, Eq, Structural)]
pub enum MavMessage {
    ManualControl(ManualControl),
    Heartbeat,
    Unknown(u32),
}

/// Parser error.
#[derive(Debug, Clone, Copy, PartialEq, Eq, Structural)]
pub enum ParseError {
    /// Not enough data.
    Incomplete,
    /// Invalid start byte or oversized declared frame.
    InvalidStart,
    /// CRC mismatch.
    CrcError,
    /// Unsupported message.
    Unsupported,
}

#[derive(Clone, Copy)]
enum ParserState {
    WaitingForStart,
    ReadingHeader,
    ReadingPayload { expected_len: usize },
}

// ---------------------------------------------------------------------------
// Spec model of the wire format
// ---------------------------------------------------------------------------

/// One step of the table-free CRC-16/MCRF4XX bit accumulation.
pub open spec fn crc_accum_spec(byte: u8, crc: u16) -> u16 {
    let tmp = (byte ^ (crc as u8)) as u16;
    let tmp2 = tmp ^ (tmp << 4);
    (crc >> 8) ^ (tmp2 << 8) ^ (tmp2 << 3) ^ (tmp2 >> 4)
}

/// The CRC value after folding every byte of `s`, in order, into `crc`.
pub open spec fn crc16_fold_from(s: Seq<u8>, crc: u16) -> u16
    decreases s.len(),
{
    if s.len() == 0 {
        crc
    } else {
        crc16_fold_from(s.skip(1), crc_accum_spec(s[0], crc))
    }
}

/// CRC-16/MCRF4XX of `data` followed by the per-message CRC extra byte.
pub open spec fn crc16_spec(data: Seq<u8>, crc_extra: u8) -> u16 {
    crc_accum_spec(crc_extra, crc16_fold_from(data, CRC_INIT))
}

/// The header size selected by a start byte.
pub open spec fn header_size_of(b0: u8) -> int {
    if b0 == MAVLINK_STX_V2 {
        10
    } else {
        6
    }
}

/// The total frame length declared by a complete header: header bytes,
/// payload bytes, and the 2-byte CRC.
pub open spec fn expected_total(p: Seq<u8>) -> int {
    header_size_of(p[0]) + p[1] + 2
}

/// The unsigned 16-bit value of two little-endian bytes.
pub open spec fn u16_le(lo: u8, hi: u8) -> u16 {
    (lo + hi * 256) as u16
}

/// The signed 16-bit value of two little-endian bytes.
pub open spec fn i16_le(lo: u8, hi: u8) -> i16 {
    ((lo + hi * 256) as u16) as i16
}

/// The message id of a complete frame.
pub open spec fn msg_id_of(f: Seq<u8>) -> int {
    if f[0] == MAVLINK_STX_V2 {
        f[7] + f[8] * 256 + f[9] * 65536
    } else {
        f[5] as int
    }
}

/// The outcome of a complete frame `f` (start byte through trailing CRC):
/// an unknown result for unrecognized message ids, a CRC error when the
/// computed CRC disagrees with the trailing bytes, an incomplete error
/// for a manual-control payload under 11 bytes, and otherwise the decoded
/// message.
pub open spec fn frame_result(f: Seq<u8>) -> Result<Option<MavMessage>, ParseError> {
    let hsize = header_size_of(f[0]);
    let plen = f[1] as int;
    let msg_id = msg_id_of(f);
    let payload = f.subrange(hsize, hsize + plen);
    let received = u16_le(f[hsize + plen], f[hsize + plen + 1]);
    if msg_id != MSG_ID_MANUAL_CONTROL && msg_id != MSG_ID_HEARTBEAT {
        Ok(Some(MavMessage::Unknown(msg_id as u32)))
    } else {
        let extra = if msg_id == MSG_ID_MANUAL_CONTROL {
            CRC_EXTRA_MANUAL_CONTROL
        } else {
            CRC_EXTRA_HEARTBEAT
        };
        let calculated = crc16_spec(f.subrange(1, hsize + plen), extra);
        if calculated != received {
            Err(ParseError::CrcError)
        } else if msg_id == MSG_ID_MANUAL_CONTROL {
            if plen < 11 {
                Err(ParseError::Incomplete)
            } else {
                Ok(
                    Some(
                        MavMessage::ManualControl(
                            ManualControl {
                                target: payload[0],
                                x: i16_le(payload[1], payload[2]),
                                y: i16_le(payload[3], payload[4]),
                                z: i16_le(payload[5], payload[6]),
                                r: i16_le(payload[7], payload[8]),
                                buttons: u16_le(payload[9], payload[10]),
                                buttons2: if plen >= 13 {
                                    u16_le(payload[11], payload[12])
                                } else {
                                    0
                                },
                            },
                        ),
                    ),
                )
            }
        } else {
            Ok(Some(MavMessage::Heartbeat))
        }
    }
}

// ---------------------------------------------------------------------------
// Executable CRC
// ---------------------------------------------------------------------------

/// Accumulate one byte into a running CRC.
fn crc_accumulate(byte: u8, crc: u16) -> (r: u16)
    ensures
        r == crc_accum_spec(byte, crc),
{
    let tmp: u16 = (byte ^ (crc as u8)) as u16;
    let tmp2: u16 = tmp ^ (tmp << 4u16);
    (crc >> 8u16) ^ (tmp2 << 8u16) ^ (tmp2 << 3u16) ^ (tmp2 >> 4u16)
}

/// CRC-16/MCRF4XX over `data` followed by the CRC extra byte.
fn crc16_mcrf4xx(data: &[u8], crc_extra: u8) -> (r: u16)
    ensures
        r == crc16_spec(data@, crc_extra),
{
    let mut crc: u16 = CRC_INIT;
    let mut i: usize = 0;
    proof {
        assert(data@.skip(0) =~= data@);
    }
    while i < data.len()
        invariant
            0 <= i <= data@.len(),
            crc16_fold_from(data@, CRC_INIT) == crc16_fold_from(data@.skip(i as int), crc),
        decreases data@.len() - i,
    {
        proof {
            assert(data@.skip(i as int)[0] == data@[i as int]);
            assert(data@.skip(i as int).skip(1) =~= data@.skip(i + 1));
        }
        crc = crc_accumulate(data[i], crc);
        i = i + 1;
    }
    crc_accumulate(crc_extra, crc)
}

// ---------------------------------------------------------------------------
// The parser
// ---------------------------------------------------------------------------

/// MAVLink frame parser: a byte-stream state machine that waits for a
/// start byte, collects the header, then the declared payload and CRC,
/// and resets after every terminal outcome.
pub struct MavlinkParser {
    buffer: [u8; 280],
    pos: usize,
    state: ParserState,
}

impl MavlinkParser {
    /// The bytes of the frame collected so far.
    pub closed spec fn pending(&self) -> Seq<u8> {
        self.buffer@.take(self.pos as int)
    }

    /// Whether the parser is waiting for a start byte, as a freshly
    /// constructed parser does.
    pub closed spec fn ready(&self) -> bool {
        self.state is WaitingForStart
    }

    /// Structural invariant: the write position stays within the frame
    /// buffer, bounded by the header size while the header is read and
    /// by the declared total length while the payload is read.
    pub closed spec fn wf(&self) -> bool {
        match self.state {
            ParserState::WaitingForStart => self.pos == 0,
            ParserState::ReadingHeader => 1 <= self.pos < header_size_of(self.buffer@[0]),
            ParserState::ReadingPayload { expected_len } => {
                &&& header_size_of(self.buffer@[0]) <= self.pos < expected_len
                &&& expected_len == expected_total(self.buffer@)
                &&& expected_len <= MAX_FRAME_SIZE
            },
        }
    }

    /// Create a new parser, waiting for a start byte.
    pub fn new() -> (r: MavlinkParser)
        ensures
            r.wf(),
            r.ready(),
            r.pending() == Seq::<u8>::empty(),
    {
        let r = MavlinkParser {
            buffer: [0u8; 280],
            pos: 0,
            state: ParserState::WaitingForStart,
        };
        proof {
            assert(r.pending() =~= Seq::<u8>::empty());
        }
        r
    }

    /// Reset parser state to waiting for a start byte.
    pub fn reset(&mut self)
        ensures
            final(self).wf(),
            final(self).ready(),
            final(self).pending() == Seq::<u8>::empty(),
    {
        self.pos = 0;
        self.state = ParserState::WaitingForStart;
        proof {
            assert(self.pending() =~= Seq::<u8>::empty());
        }
    }

    /// Feed a byte to the parser.
    ///
    /// Returns `Ok(Some(message))` when this byte completes a valid
    /// recognized frame, `Ok(Some(Unknown))` for a complete frame of an
    /// unrecognized kind, `Ok(None)` while a frame is still being
    /// collected (bytes outside a frame are ignored), and an error for a
    /// CRC mismatch, a short manual-control payload, or an oversized
    /// declared frame. After every terminal outcome - a message, an
    /// unknown frame, or an error - the parser is back in its initial
    /// waiting state.
    pub fn push_byte(&mut self, byte: u8) -> (r: Result<Option<MavMessage>, ParseError>)
        requires
            old(self).wf(),
        ensures
            final(self).wf(),
            ((r is Err) || ((r is Ok) && (r.unwrap() is Some))) ==> (final(self).ready()
                && final(self).pending() == Seq::<u8>::empty()),
            (old(self).ready() && (byte == MAVLINK_STX_V1 || byte == MAVLINK_STX_V2)) ==> (
                r == Ok::<Option<MavMessage>, ParseError>(None)
                && !final(self).ready()
                && final(self).pending() == seq![byte]),
            (old(self).ready() && !(byte == MAVLINK_STX_V1 || byte == MAVLINK_STX_V2)) ==> (
                r == Ok::<Option<MavMessage>, ParseError>(None)
                && final(self).ready()
                && final(self).pending() == Seq::<u8>::empty()),
            !old(self).ready() ==> ({
                let c = old(self).pending().push(byte);
                if c.len() == header_size_of(c[0]) && expected_total(c) > MAX_FRAME_SIZE {
                    r == Err::<Option<MavMessage>, ParseError>(ParseError::InvalidStart)
                        && final(self).ready()
                } else if c.len() > header_size_of(c[0]) && c.len() == expected_total(c) {
                    r == frame_result(c) && final(self).ready()
                } else {
                    r == Ok::<Option<MavMessage>, ParseError>(None) && !final(self).ready()
                        && final(self).pending() == c
                }
            }),
    {
        match self.state {
            ParserState::WaitingForStart => {
                if byte == MAVLINK_STX_V1 || byte == MAVLINK_STX_V2 {
                    self.buffer[0] = byte;
                    self.pos = 1;
                    self.state = ParserState::ReadingHeader;
                    proof {
                        assert(self.pending() =~= seq![byte]);
                    }
                } else {
                    proof {
                        assert(self.pending() =~= Seq::<u8>::empty());
                    }
                }
                Ok(None)
            },
            ParserState::ReadingHeader => {
                let ghost c = old(self).pending().push(byte);
                self.buffer[self.pos] = byte;
                self.pos = self.pos + 1;
                proof {
                    assert(self.pending() =~= c);
                    assert(self.buffer@[0] == old(self).buffer@[0]);
                    assert(c[0] == self.buffer@[0]);
                }
                let header_size: usize = if self.buffer[0] == MAVLINK_STX_V2 {
                    10
                } else {
                    6
                };
                if self.pos >= header_size {
                    let payload_len = self.buffer[1] as usize;
                    let expected_len = header_size + payload_len + 2;
                    proof {
                        assert(c[1] == self.buffer@[1]);
                        assert(expected_len == expected_total(c));
                    }
                    if expected_len > MAX_FRAME_SIZE {
                        self.reset();
                        return Err(ParseError::InvalidStart);
                    }
                    self.state = ParserState::ReadingPayload { expected_len };
                }
                Ok(None)
            },
            ParserState::ReadingPayload { expected_len } => {
                let ghost c = old(self).pending().push(byte);
                self.buffer[self.pos] = byte;
                self.pos = self.pos + 1;
                proof {
                    assert(self.pending() =~= c);
                    assert(self.buffer@[0] == old(self).buffer@[0]);
                    assert(self.buffer@[1] == old(self).buffer@[1]);
                    assert(c[0] == self.buffer@[0]);
                    assert(c[1] == self.buffer@[1]);
                }
                if self.pos >= expected_len {
                    let result = self.parse_frame();
                    self.reset();
                    result
                } else {
                    Ok(None)
                }
            },
        }
    }

    /// Decode the complete frame held in the buffer.
    fn parse_frame(&self) -> (r: Result<Option<MavMessage>, ParseError>)
        requires
            self.pos == expected_total(self.buffer@),
            header_size_of(self.buffer@[0]) + 2 <= self.pos <= MAX_FRAME_SIZE,
        ensures
            r == frame_result(self.pending()),
    {
        let ghost f = self.pending();
        let is_v2 = self.buffer[0] == MAVLINK_STX_V2;
        let payload_len = self.buffer[1] as usize;

        let msg_id: u32;
        let payload_start: usize;
        if is_v2 {
            msg_id = (self.buffer[7] as u32) + (self.buffer[8] as u32) * 256 + (self.buffer[9]
                as u32) * 65536;
            payload_start = 10;
        } else {
            msg_id = self.buffer[5] as u32;
            payload_start = 6;
        }
        proof {
            assert(f[0] == self.buffer@[0]);
            assert(f[1] == self.buffer@[1]);
            if is_v2 {
                assert(f[7] == self.buffer@[7]);
                assert(f[8] == self.buffer@[8]);
                assert(f[9] == self.buffer@[9]);
            } else {
                assert(f[5] == self.buffer@[5]);
            }
            assert(msg_id == msg_id_of(f));
        }

        let crc_extra: u8;
        if msg_id == MSG_ID_MANUAL_CONTROL {
            crc_extra = CRC_EXTRA_MANUAL_CONTROL;
        } else if msg_id == MSG_ID_HEARTBEAT {
            crc_extra = CRC_EXTRA_HEARTBEAT;
        } else {
            return Ok(Some(MavMessage::Unknown(msg_id)));
        }

        let crc_data_end = payload_start + payload_len;
        let frame_slice = self.buffer.as_slice();
        let calculated_crc = crc16_mcrf4xx(&frame_slice[1..crc_data_end], crc_extra);
        let crc_start = crc_data_end;
        let received_crc = (self.buffer[crc_start] as u16) + (self.buffer[crc_start + 1] as u16)
            * 256;
        proof {
            assert(frame_slice@.subrange(1, crc_data_end as int) =~= f.subrange(
                1,
                header_size_of(f[0]) + f[1],
            ));
            assert(f[crc_start as int] == self.buffer@[crc_start as int]);
            assert(f[crc_start + 1] == self.buffer@[crc_start + 1]);
        }
        if calculated_crc != received_crc {
            return Err(ParseError::CrcError);
        }

        if msg_id == MSG_ID_MANUAL_CONTROL {
            if payload_len < 11 {
                return Err(ParseError::Incomplete);
            }
            let ghost payload = f.subrange(
                payload_start as int,
                payload_start + payload_len as int,
            );
            proof {
                assert(forall|k: int|
                    0 <= k < payload_len ==> #[trigger] payload[k] == self.buffer@[
                        payload_start + k
                    ]);
            }
            let msg = ManualControl {
                target: self.buffer[payload_start],
                x: le_i16(self.buffer[payload_start + 1], self.buffer[payload_start + 2]),
                y: le_i16(self.buffer[payload_start + 3], self.buffer[payload_start + 4]),
                z: le_i16(self.buffer[payload_start + 5], self.buffer[payload_start + 6]),
                r: le_i16(self.buffer[payload_start + 7], self.buffer[payload_start + 8]),
                buttons: le_u16(self.buffer[payload_start + 9], self.buffer[payload_start + 10]),
                buttons2: if payload_len >= 13 {
                    le_u16(self.buffer[payload_start + 11], self.buffer[payload_start + 12])
                } else {
                    0
                },
            };
            Ok(Some(MavMessage::ManualControl(msg)))
        } else {
            Ok(Some(MavMessage::Heartbeat))
        }
    }
}

impl Default for MavlinkParser {
    /// A fresh parser, equal to `MavlinkParser::new()`.
    fn default() -> (r: MavlinkParser)
        ensures
            r.wf(),
            r.ready(),
            r.pending() == Seq::<u8>::empty(),
    {
        MavlinkParser::new()
    }
}

/// Combine two little-endian bytes into an unsigned 16-bit value.
fn le_u16(lo: u8, hi: u8) -> (r: u16)
    ensures
        r == u16_le(lo, hi),
{
    (lo as u16) + (hi as u16) * 256
}

/// Combine two little-endian bytes into a signed 16-bit value.
fn le_i16(lo: u8, hi: u8) -> (r: i16)
    ensures
        r == i16_le(lo, hi),
{
    let v: u16 = (lo as u16) + (hi as u16) * 256;
    v as i16
}

} // verus!
