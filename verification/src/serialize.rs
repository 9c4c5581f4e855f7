//! Protocol serialization for gamepad messages.
//!
//! Serializes `GamepadState` (full-state, `G` prefix) and
//! `GamepadFieldUpdate` (update, `U` prefix) into caller-provided fixed
//! buffers, with the XOR checksum of the payload appended as two hex
//! digits. The exact bytes written are pinned by the spec-level message
//! renderings `full_msg` and `update_msg`.

use vstd::prelude::*;
use vstd::array::ref_mut_array_unsizing_coercion;
use vstd::string::{StringExecFns, StringSliceAdditionalSpecFns};
use vstd::utf8::{
    decode_utf8, encode_utf8_decode_utf8, is_leading_byte_width_1, partial_valid_utf8,
    partial_valid_utf8_extend_ascii_block, valid_utf8,
};
use crate::checksum::{calculate_checksum, xor_fold};
use crate::textfmt::{
    dec_digits, hex2, hex4, hex_char_of, i16_dec, lemma_dec_digits_len, push_hex4, push_i16_dec,
    push_u8_dec, u8_dec,
};
use crate::types::{GamepadFieldUpdate, GamepadState};

verus! {

/// Maximum size of a serialized full state message.
///
/// Worst case: prefix (1) + buttons (4) + six colons (6) + four stick
/// fields (6 each) + two trigger fields (3 each) + `*` (1) + checksum (2)
/// + LF (1) = 45; 48 leaves a safety margin.
pub const MAX_FULL_STATE_SIZE: usize = 48;

/// Maximum size of a serialized update message.
///
/// Worst case: prefix (1) + field (2) + colon (1) + value (6) + `*` (1)
/// + checksum (2) + LF (1) = 14; 16 leaves a safety margin.
pub const MAX_UPDATE_SIZE: usize = 16;

/// Error type for serialization operations.
#[derive(Debug, Clone, Copy, PartialEq, Eq, Structural)]
pub enum SerializeError {
    /// The output buffer is too small to hold the serialized message.
    BufferTooSmall,
    /// A write operation failed (for I/O adapters).
    WriteError,
}

/// The payload bytes of a full-state message: buttons as four hex digits,
/// then the four stick fields and two trigger fields in decimal, all
/// separated by colons.
pub open spec fn full_payload(s: GamepadState) -> Seq<u8> {
    hex4(s.buttons.0) + seq![58u8] + i16_dec(s.left_stick.x) + seq![58u8] + i16_dec(
        s.left_stick.y,
    ) + seq![58u8] + i16_dec(s.right_stick.x) + seq![58u8] + i16_dec(s.right_stick.y) + seq![58u8]
        + u8_dec(s.left_trigger) + seq![58u8] + u8_dec(s.right_trigger)
}

/// The complete full-state message: `G`, the payload, `*`, the two hex
/// digits of the payload's XOR checksum, and a LF.
pub open spec fn full_msg(s: GamepadState) -> Seq<u8> {
    seq![71u8] + full_payload(s) + seq![42u8] + hex2(xor_fold(full_payload(s))) + seq![10u8]
}

/// The payload bytes of an update message: the field identifier, a colon,
/// and the field value.
pub open spec fn update_payload(u: GamepadFieldUpdate) -> Seq<u8> {
    match u {
        GamepadFieldUpdate::Buttons(b) => seq![66u8, 58u8] + hex4(b.0),
        GamepadFieldUpdate::LeftStickX(v) => seq![76u8, 88u8, 58u8] + i16_dec(v),
        GamepadFieldUpdate::LeftStickY(v) => seq![76u8, 89u8, 58u8] + i16_dec(v),
        GamepadFieldUpdate::RightStickX(v) => seq![82u8, 88u8, 58u8] + i16_dec(v),
        GamepadFieldUpdate::RightStickY(v) => seq![82u8, 89u8, 58u8] + i16_dec(v),
        GamepadFieldUpdate::LeftTrigger(v) => seq![76u8, 84u8, 58u8] + u8_dec(v),
        GamepadFieldUpdate::RightTrigger(v) => seq![82u8, 84u8, 58u8] + u8_dec(v),
    }
}

/// The complete update message: `U`, the payload, `*`, the two hex digits
/// of the payload's XOR checksum, and a LF.
pub open spec fn update_msg(u: GamepadFieldUpdate) -> Seq<u8> {
    seq![85u8] + update_payload(u) + seq![42u8] + hex2(xor_fold(update_payload(u))) + seq![10u8]
}

/// The signed rendering of an i16 takes between 1 and 6 characters.
pub proof fn lemma_i16_dec_len(v: i16)
    ensures
        1 <= i16_dec(v).len() <= 6,
{
    if v >= 0 {
        lemma_dec_digits_len(v as nat);
    } else {
        lemma_dec_digits_len((-(v as int)) as nat);
    }
}

/// The rendering of a u8 takes between 1 and 3 characters.
pub proof fn lemma_u8_dec_len(v: u8)
    ensures
        1 <= u8_dec(v).len() <= 3,
{
    lemma_dec_digits_len(v as nat);
}

/// A full-state payload takes between 16 and 40 bytes.
pub proof fn lemma_full_payload_len(s: GamepadState)
    ensures
        16 <= full_payload(s).len() <= 40,
{
    lemma_i16_dec_len(s.left_stick.x);
    lemma_i16_dec_len(s.left_stick.y);
    lemma_i16_dec_len(s.right_stick.x);
    lemma_i16_dec_len(s.right_stick.y);
    lemma_u8_dec_len(s.left_trigger);
    lemma_u8_dec_len(s.right_trigger);
}

/// An update payload takes between 4 and 9 bytes.
pub proof fn lemma_update_payload_len(u: GamepadFieldUpdate)
    ensures
        4 <= update_payload(u).len() <= 9,
{
    match u {
        GamepadFieldUpdate::Buttons(b) => {
        },
        GamepadFieldUpdate::LeftStickX(v) => {
            lemma_i16_dec_len(v);
        },
        GamepadFieldUpdate::LeftStickY(v) => {
            lemma_i16_dec_len(v);
        },
        GamepadFieldUpdate::RightStickX(v) => {
            lemma_i16_dec_len(v);
        },
        GamepadFieldUpdate::RightStickY(v) => {
            lemma_i16_dec_len(v);
        },
        GamepadFieldUpdate::LeftTrigger(v) => {
            lemma_u8_dec_len(v);
        },
        GamepadFieldUpdate::RightTrigger(v) => {
            lemma_u8_dec_len(v);
        },
    }
}

/// Append the payload of a full-state message to `out`.
fn push_full_payload(out: &mut Vec<u8>, s: &GamepadState)
    ensures
        final(out)@ == old(out)@ + full_payload(*s),
{
    push_hex4(out, s.buttons.0);
    out.push(58);
    push_i16_dec(out, s.left_stick.x);
    out.push(58);
    push_i16_dec(out, s.left_stick.y);
    out.push(58);
    push_i16_dec(out, s.right_stick.x);
    out.push(58);
    push_i16_dec(out, s.right_stick.y);
    out.push(58);
    push_u8_dec(out, s.left_trigger);
    out.push(58);
    push_u8_dec(out, s.right_trigger);
    proof {
        assert(out@ =~= old(out)@ + full_payload(*s));
    }
}

/// Append the payload of an update message to `out`.
fn push_update_payload(out: &mut Vec<u8>, u: &GamepadFieldUpdate)
    ensures
        final(out)@ == old(out)@ + update_payload(*u),
{
    match u {
        GamepadFieldUpdate::Buttons(b) => {
            out.push(66);
            out.push(58);
            push_hex4(out, b.0);
        },
        GamepadFieldUpdate::LeftStickX(v) => {
            out.push(76);
            out.push(88);
            out.push(58);
            push_i16_dec(out, *v);
        },
        GamepadFieldUpdate::LeftStickY(v) => {
            out.push(76);
            out.push(89);
            out.push(58);
            push_i16_dec(out, *v);
        },
        GamepadFieldUpdate::RightStickX(v) => {
            out.push(82);
            out.push(88);
            out.push(58);
            push_i16_dec(out, *v);
        },
        GamepadFieldUpdate::RightStickY(v) => {
            out.push(82);
            out.push(89);
            out.push(58);
            push_i16_dec(out, *v);
        },
        GamepadFieldUpdate::LeftTrigger(v) => {
            out.push(76);
            out.push(84);
            out.push(58);
            push_u8_dec(out, *v);
        },
        GamepadFieldUpdate::RightTrigger(v) => {
            out.push(82);
            out.push(84);
            out.push(58);
            push_u8_dec(out, *v);
        },
    }
    proof {
        assert(out@ =~= old(out)@ + update_payload(*u));
    }
}

/// Frame a payload as a complete message: prefix, payload, `*`, the two
/// hex digits of the payload's XOR checksum, and a LF.
fn frame_message(prefix: u8, payload: &Vec<u8>) -> (msg: Vec<u8>)
    ensures
        msg@ == seq![prefix] + payload@ + seq![42u8] + hex2(xor_fold(payload@)) + seq![10u8],
{
    let checksum = calculate_checksum(payload.as_slice());
    let mut msg: Vec<u8> = Vec::new();
    msg.push(prefix);
    let mut k: usize = 0;
    while k < payload.len()
        invariant
            0 <= k <= payload@.len(),
            msg@ == seq![prefix] + payload@.take(k as int),
        decreases payload@.len() - k,
    {
        msg.push(payload[k]);
        proof {
            assert(seq![prefix] + payload@.take(k + 1) =~= (seq![prefix] + payload@.take(
                k as int,
            )).push(payload@[k as int]));
        }
        k = k + 1;
    }
    proof {
        assert(payload@.take(payload@.len() as int) =~= payload@);
    }
    msg.push(42);
    msg.push(hex_char_of(checksum / 16));
    msg.push(hex_char_of(checksum % 16));
    msg.push(10);
    proof {
        assert(msg@ =~= seq![prefix] + payload@ + seq![42u8] + hex2(xor_fold(payload@))
            + seq![10u8]);
    }
    msg
}

/// Copy `msg` into the start of `buf`, returning its length.
fn copy_message(buf: &mut [u8], msg: &Vec<u8>) -> (n: usize)
    requires
        msg@.len() <= old(buf)@.len(),
    ensures
        n == msg@.len(),
        final(buf)@.len() == old(buf)@.len(),
        final(buf)@.subrange(0, n as int) == msg@,
        forall|j: int| n <= j < final(buf)@.len() ==> final(buf)@[j] == old(buf)@[j],
{
    let mut t: usize = 0;
    while t < msg.len()
        invariant
            0 <= t <= msg@.len(),
            msg@.len() <= buf@.len(),
            buf@.len() == old(buf)@.len(),
            buf@.subrange(0, t as int) == msg@.take(t as int),
            forall|j: int| t <= j < buf@.len() ==> buf@[j] == old(buf)@[j],
        decreases msg@.len() - t,
    {
        buf[t] = msg[t];
        proof {
            assert(buf@.subrange(0, t + 1) =~= msg@.take(t + 1));
        }
        t = t + 1;
    }
    proof {
        assert(buf@.subrange(0, msg@.len() as int) =~= msg@.take(msg@.len() as int));
        assert(msg@.take(msg@.len() as int) =~= msg@);
    }
    t
}


/// Every byte of `s` is ASCII.
pub open spec fn ascii_bytes(s: Seq<u8>) -> bool {
    forall|i: int| 0 <= i < s.len() ==> #[trigger] s[i] < 128
}

/// A concatenation of ASCII parts is ASCII.
pub proof fn lemma_ascii_concat(a: Seq<u8>, b: Seq<u8>)
    requires
        ascii_bytes(a),
        ascii_bytes(b),
    ensures
        ascii_bytes(a + b),
{
    assert forall|i: int| 0 <= i < (a + b).len() implies #[trigger] (a + b)[i] < 128 by {
        if i < a.len() {
            assert((a + b)[i] == a[i]);
        } else {
            assert((a + b)[i] == b[i - a.len()]);
        }
    }
}

/// A hex rendering is ASCII.
proof fn lemma_hex4_ascii(v: u16)
    ensures
        ascii_bytes(hex4(v)),
{
    assert forall|i: int| 0 <= i < hex4(v).len() implies #[trigger] hex4(v)[i] < 128 by {
        assert(i == 0 || i == 1 || i == 2 || i == 3);
    }
}

/// A two-digit hex rendering is ASCII.
proof fn lemma_hex2_ascii(v: u8)
    ensures
        ascii_bytes(hex2(v)),
{
    assert forall|i: int| 0 <= i < hex2(v).len() implies #[trigger] hex2(v)[i] < 128 by {
        assert(i == 0 || i == 1);
    }
}

/// A decimal rendering is ASCII.
proof fn lemma_dec_ascii(n: nat)
    ensures
        ascii_bytes(dec_digits(n)),
{
    crate::textfmt::lemma_dec_digits_are_digits(n);
}

/// A signed decimal rendering is ASCII.
proof fn lemma_i16_dec_ascii(v: i16)
    ensures
        ascii_bytes(i16_dec(v)),
{
    if v >= 0 {
        lemma_dec_ascii(v as nat);
    } else {
        lemma_dec_ascii((-(v as int)) as nat);
        assert forall|i: int| 0 <= i < i16_dec(v).len() implies #[trigger] i16_dec(v)[i]
            < 128 by {
            if i >= 1 {
                assert(i16_dec(v)[i] == dec_digits((-(v as int)) as nat)[i - 1]);
            }
        }
    }
}

/// A full-state message holds ASCII bytes only.
pub proof fn lemma_full_msg_ascii(s: GamepadState)
    ensures
        ascii_bytes(full_msg(s)),
{
    let c = seq![58u8];
    assert(ascii_bytes(c)) by {
        assert(c[0] == 58);
    }
    lemma_hex4_ascii(s.buttons.0);
    lemma_i16_dec_ascii(s.left_stick.x);
    lemma_i16_dec_ascii(s.left_stick.y);
    lemma_i16_dec_ascii(s.right_stick.x);
    lemma_i16_dec_ascii(s.right_stick.y);
    lemma_dec_ascii(s.left_trigger as nat);
    lemma_dec_ascii(s.right_trigger as nat);
    lemma_ascii_concat(hex4(s.buttons.0), c);
    lemma_ascii_concat(hex4(s.buttons.0) + c, i16_dec(s.left_stick.x));
    let p1 = hex4(s.buttons.0) + c + i16_dec(s.left_stick.x);
    lemma_ascii_concat(p1, c);
    lemma_ascii_concat(p1 + c, i16_dec(s.left_stick.y));
    let p2 = p1 + c + i16_dec(s.left_stick.y);
    lemma_ascii_concat(p2, c);
    lemma_ascii_concat(p2 + c, i16_dec(s.right_stick.x));
    let p3 = p2 + c + i16_dec(s.right_stick.x);
    lemma_ascii_concat(p3, c);
    lemma_ascii_concat(p3 + c, i16_dec(s.right_stick.y));
    let p4 = p3 + c + i16_dec(s.right_stick.y);
    lemma_ascii_concat(p4, c);
    lemma_ascii_concat(p4 + c, u8_dec(s.left_trigger));
    let p5 = p4 + c + u8_dec(s.left_trigger);
    lemma_ascii_concat(p5, c);
    lemma_ascii_concat(p5 + c, u8_dec(s.right_trigger));
    assert(full_payload(s) == p5 + c + u8_dec(s.right_trigger));
    let g = seq![71u8];
    assert(ascii_bytes(g)) by {
        assert(g[0] == 71);
    }
    let star = seq![42u8];
    assert(ascii_bytes(star)) by {
        assert(star[0] == 42);
    }
    let lf = seq![10u8];
    assert(ascii_bytes(lf)) by {
        assert(lf[0] == 10);
    }
    lemma_hex2_ascii(xor_fold(full_payload(s)));
    lemma_ascii_concat(g, full_payload(s));
    lemma_ascii_concat(g + full_payload(s), star);
    lemma_ascii_concat(g + full_payload(s) + star, hex2(xor_fold(full_payload(s))));
    lemma_ascii_concat(
        g + full_payload(s) + star + hex2(xor_fold(full_payload(s))),
        lf,
    );
}

/// An update message holds ASCII bytes only.
pub proof fn lemma_update_msg_ascii(u: GamepadFieldUpdate)
    ensures
        ascii_bytes(update_msg(u)),
{
    let p = update_payload(u);
    assert(ascii_bytes(p)) by {
        match u {
            GamepadFieldUpdate::Buttons(b) => {
                lemma_hex4_ascii(b.0);
                assert(ascii_bytes(seq![66u8, 58u8])) by {
                    assert(seq![66u8, 58u8][0] == 66 && seq![66u8, 58u8][1] == 58);
                }
                lemma_ascii_concat(seq![66u8, 58u8], hex4(b.0));
            },
            GamepadFieldUpdate::LeftStickX(v) => {
                lemma_i16_dec_ascii(v);
                assert(ascii_bytes(seq![76u8, 88u8, 58u8])) by {
                    let t = seq![76u8, 88u8, 58u8];
                    assert forall|i: int| 0 <= i < t.len() implies #[trigger] t[i] < 128 by {
                        assert(i == 0 || i == 1 || i == 2);
                    }
                }
                lemma_ascii_concat(seq![76u8, 88u8, 58u8], i16_dec(v));
            },
            GamepadFieldUpdate::LeftStickY(v) => {
                lemma_i16_dec_ascii(v);
                assert(ascii_bytes(seq![76u8, 89u8, 58u8])) by {
                    let t = seq![76u8, 89u8, 58u8];
                    assert forall|i: int| 0 <= i < t.len() implies #[trigger] t[i] < 128 by {
                        assert(i == 0 || i == 1 || i == 2);
                    }
                }
                lemma_ascii_concat(seq![76u8, 89u8, 58u8], i16_dec(v));
            },
            GamepadFieldUpdate::RightStickX(v) => {
                lemma_i16_dec_ascii(v);
                assert(ascii_bytes(seq![82u8, 88u8, 58u8])) by {
                    let t = seq![82u8, 88u8, 58u8];
                    assert forall|i: int| 0 <= i < t.len() implies #[trigger] t[i] < 128 by {
                        assert(i == 0 || i == 1 || i == 2);
                    }
                }
                lemma_ascii_concat(seq![82u8, 88u8, 58u8], i16_dec(v));
            },
            GamepadFieldUpdate::RightStickY(v) => {
                lemma_i16_dec_ascii(v);
                assert(ascii_bytes(seq![82u8, 89u8, 58u8])) by {
                    let t = seq![82u8, 89u8, 58u8];
                    assert forall|i: int| 0 <= i < t.len() implies #[trigger] t[i] < 128 by {
                        assert(i == 0 || i == 1 || i == 2);
                    }
                }
                lemma_ascii_concat(seq![82u8, 89u8, 58u8], i16_dec(v));
            },
            GamepadFieldUpdate::LeftTrigger(v) => {
                lemma_dec_ascii(v as nat);
                assert(ascii_bytes(seq![76u8, 84u8, 58u8])) by {
                    let t = seq![76u8, 84u8, 58u8];
                    assert forall|i: int| 0 <= i < t.len() implies #[trigger] t[i] < 128 by {
                        assert(i == 0 || i == 1 || i == 2);
                    }
                }
                lemma_ascii_concat(seq![76u8, 84u8, 58u8], u8_dec(v));
            },
            GamepadFieldUpdate::RightTrigger(v) => {
                lemma_dec_ascii(v as nat);
                assert(ascii_bytes(seq![82u8, 84u8, 58u8])) by {
                    let t = seq![82u8, 84u8, 58u8];
                    assert forall|i: int| 0 <= i < t.len() implies #[trigger] t[i] < 128 by {
                        assert(i == 0 || i == 1 || i == 2);
                    }
                }
                lemma_ascii_concat(seq![82u8, 84u8, 58u8], u8_dec(v));
            },
        }
    }
    let u_prefix = seq![85u8];
    assert(ascii_bytes(u_prefix)) by {
        assert(u_prefix[0] == 85);
    }
    let star = seq![42u8];
    assert(ascii_bytes(star)) by {
        assert(star[0] == 42);
    }
    let lf = seq![10u8];
    assert(ascii_bytes(lf)) by {
        assert(lf[0] == 10);
    }
    lemma_hex2_ascii(xor_fold(p));
    lemma_ascii_concat(u_prefix, p);
    lemma_ascii_concat(u_prefix + p, star);
    lemma_ascii_concat(u_prefix + p + star, hex2(xor_fold(p)));
    lemma_ascii_concat(u_prefix + p + star + hex2(xor_fold(p)), lf);
}

/// An ASCII byte sequence is valid UTF-8.
pub proof fn lemma_ascii_valid_utf8(s: Seq<u8>)
    requires
        ascii_bytes(s),
    ensures
        valid_utf8(s),
{
    assert(s.subrange(0, 0) =~= Seq::<u8>::empty());
    assert(valid_utf8(Seq::<u8>::empty()));
    assert(partial_valid_utf8(s, 0));
    assert(forall|i: int| 0 <= i < s.len() ==> is_leading_byte_width_1(#[trigger] s[i]));
    partial_valid_utf8_extend_ascii_block(s, 0, s.len() as int);
    assert(s.subrange(0, s.len() as int) =~= s);
}

/// Relies on core::str::from_utf8: it succeeds exactly on valid UTF-8
/// input and returns a string slice viewing those same bytes.
#[verifier::external_body]
fn utf8_str(v: &[u8]) -> (r: Option<&str>)
    ensures
        (r is Some) <==> valid_utf8(v@),
        (r is Some) ==> r.unwrap().spec_bytes() == v@,
{
    core::str::from_utf8(v).ok()
}

impl GamepadState {
    /// Serialize this state as a full-state message into `buf`.
    ///
    /// Returns the number of bytes written; the bytes written are exactly
    /// `full_msg(self)` and the rest of the buffer keeps its prior values.
    /// Fails with `BufferTooSmall` exactly when the buffer is smaller than
    /// `MAX_FULL_STATE_SIZE`.
    pub fn serialize(&self, buf: &mut [u8]) -> (r: Result<usize, SerializeError>)
        ensures
            (r is Ok) <==> old(buf)@.len() >= MAX_FULL_STATE_SIZE,
            (r is Err) ==> r == Err::<usize, SerializeError>(SerializeError::BufferTooSmall)
                && final(buf)@ == old(buf)@,
            (r is Ok) ==> {
                &&& r.unwrap() == full_msg(*self).len()
                &&& final(buf)@.len() == old(buf)@.len()
                &&& final(buf)@.subrange(0, r.unwrap() as int) == full_msg(*self)
                &&& forall|j: int|
                    r.unwrap() <= j < final(buf)@.len() ==> final(buf)@[j] == old(buf)@[j]
            },
    {
        if buf.len() < MAX_FULL_STATE_SIZE {
            return Err(SerializeError::BufferTooSmall);
        }
        let mut payload: Vec<u8> = Vec::new();
        push_full_payload(&mut payload, self);
        proof {
            lemma_full_payload_len(*self);
        }
        let msg = frame_message(71, &payload);
        let n = copy_message(buf, &msg);
        proof {
            assert(msg@ =~= full_msg(*self));
        }
        Ok(n)
    }

    /// Serialize this state as a full-state message appended to a string.
    ///
    /// The message is ASCII, so this always succeeds and appends exactly
    /// the decoded characters of `full_msg(self)`.
    pub fn serialize_fmt(&self, writer: &mut String) -> (r: Result<(), SerializeError>)
        ensures
            r == Ok::<(), SerializeError>(()),
            final(writer)@ == old(writer)@ + decode_utf8(full_msg(*self)),
    {
        let mut buf = [0u8; 48];
        let n = match self.serialize(ref_mut_array_unsizing_coercion(&mut buf)) {
            Ok(n) => n,
            Err(_) => {
                proof {
                    assert(false);
                }
                return Err(SerializeError::WriteError);
            },
        };
        proof {
            lemma_full_payload_len(*self);
        }
        let whole = buf.as_slice();
        let part = &whole[0..n];
        proof {
            assert(part@ == full_msg(*self));
            lemma_full_msg_ascii(*self);
            lemma_ascii_valid_utf8(part@);
        }
        match utf8_str(part) {
            Some(text) => {
                proof {
                    encode_utf8_decode_utf8(text@);
                }
                writer.append(text);
                Ok(())
            },
            None => {
                proof {
                    assert(false);
                }
                Err(SerializeError::WriteError)
            },
        }
    }
}

impl GamepadFieldUpdate {
    /// Serialize this update as an update message into `buf`.
    ///
    /// Returns the number of bytes written; the bytes written are exactly
    /// `update_msg(self)` and the rest of the buffer keeps its prior
    /// values. Fails with `BufferTooSmall` exactly when the buffer is
    /// smaller than `MAX_UPDATE_SIZE`.
    pub fn serialize(&self, buf: &mut [u8]) -> (r: Result<usize, SerializeError>)
        ensures
            (r is Ok) <==> old(buf)@.len() >= MAX_UPDATE_SIZE,
            (r is Err) ==> r == Err::<usize, SerializeError>(SerializeError::BufferTooSmall)
                && final(buf)@ == old(buf)@,
            (r is Ok) ==> {
                &&& r.unwrap() == update_msg(*self).len()
                &&& final(buf)@.len() == old(buf)@.len()
                &&& final(buf)@.subrange(0, r.unwrap() as int) == update_msg(*self)
                &&& forall|j: int|
                    r.unwrap() <= j < final(buf)@.len() ==> final(buf)@[j] == old(buf)@[j]
            },
    {
        if buf.len() < MAX_UPDATE_SIZE {
            return Err(SerializeError::BufferTooSmall);
        }
        let mut payload: Vec<u8> = Vec::new();
        push_update_payload(&mut payload, self);
        proof {
            lemma_update_payload_len(*self);
        }
        let msg = frame_message(85, &payload);
        let n = copy_message(buf, &msg);
        proof {
            assert(msg@ =~= update_msg(*self));
        }
        Ok(n)
    }

    /// Serialize this update as an update message appended to a string.
    ///
    /// The message is ASCII, so this always succeeds and appends exactly
    /// the decoded characters of `update_msg(self)`.
    pub fn serialize_fmt(&self, writer: &mut String) -> (r: Result<(), SerializeError>)
        ensures
            r == Ok::<(), SerializeError>(()),
            final(writer)@ == old(writer)@ + decode_utf8(update_msg(*self)),
    {
        let mut buf = [0u8; 16];
        let n = match self.serialize(ref_mut_array_unsizing_coercion(&mut buf)) {
            Ok(n) => n,
            Err(_) => {
                proof {
                    assert(false);
                }
                return Err(SerializeError::WriteError);
            },
        };
        proof {
            lemma_update_payload_len(*self);
        }
        let whole = buf.as_slice();
        let part = &whole[0..n];
        proof {
            assert(part@ == update_msg(*self));
            lemma_update_msg_ascii(*self);
            lemma_ascii_valid_utf8(part@);
        }
        match utf8_str(part) {
            Some(text) => {
                proof {
                    encode_utf8_decode_utf8(text@);
                }
                writer.append(text);
                Ok(())
            },
            None => {
                proof {
                    assert(false);
                }
                Err(SerializeError::WriteError)
            },
        }
    }
}

} // verus!
