//! Line-based protocol parser for gamepad messages.
//!
//! Supports two message kinds that share one grammar,
//! `<prefix><payload>*<checksum><LF>` with an optional trailing CR:
//! - Full state (G prefix): `G<buttons>:<lx>:<ly>:<rx>:<ry>:<lt>:<rt>*<checksum>\n`
//! - Update (U prefix): `U<field>:<value>*<checksum>\n`
//!
//! The checksum is the XOR fold of every payload byte (the bytes between
//! the prefix character and the `*`), written as two hex digits. A
//! well-framed message whose checksum does not match is rejected with
//! `InputError::Checksum`, distinct from the `InputError::Parse` of a
//! malformed message.

use vstd::prelude::*;
use crate::checksum::xor_fold;
use crate::input::InputError;
use crate::types::{AnalogStick, Buttons, GamepadFieldUpdate, GamepadState};

verus! {

/// Maximum line length for the protocol (including newline).
pub const MAX_LINE_LENGTH: usize = 64;

/// Minimum valid full state message length: `G0000:0:0:0:0:0:0*XX` is 20 bytes.
pub const MIN_FULL_STATE_LEN: usize = 20;

/// Minimum valid update message length: `UB:0*XX` is 7 bytes.
pub const MIN_UPDATE_LEN: usize = 7;

/// Parsed message: either a full gamepad state or an incremental update.
#[derive(Debug, Clone, Copy, PartialEq, Eq, Structural)]
pub enum ParsedMessage {
    /// Full gamepad state (G prefix).
    FullState(GamepadState),
    /// Single field update (U prefix).
    Update(GamepadFieldUpdate),
}

// ---------------------------------------------------------------------------
// Spec model of the line grammar
// ---------------------------------------------------------------------------

/// A line with its trailing LF removed, and a trailing CR before it
/// removed as well.
pub open spec fn strip_eol(s: Seq<u8>) -> Seq<u8> {
    let t = if s.len() > 0 && s.last() == 10 {
        s.drop_last()
    } else {
        s
    };
    if t.len() > 0 && t.last() == 13 {
        t.drop_last()
    } else {
        t
    }
}

/// Whether `b` is an ASCII hex digit, either case.
pub open spec fn is_hex_digit(b: u8) -> bool {
    (48 <= b <= 57) || (65 <= b <= 70) || (97 <= b <= 102)
}

/// The value of an ASCII hex digit.
pub open spec fn hex_val(b: u8) -> nat {
    if 48 <= b <= 57 {
        (b - 48) as nat
    } else if 65 <= b <= 70 {
        (b - 55) as nat
    } else if 97 <= b <= 102 {
        (b - 87) as nat
    } else {
        0
    }
}

/// Whether every byte of `s` is a hex digit.
pub open spec fn all_hex(s: Seq<u8>) -> bool {
    forall|i: int| 0 <= i < s.len() ==> is_hex_digit(#[trigger] s[i])
}

/// The value of a big-endian string of hex digits.
pub open spec fn hex_seq_val(s: Seq<u8>) -> nat
    decreases s.len(),
{
    if s.len() == 0 {
        0
    } else {
        hex_seq_val(s.drop_last()) * 16 + hex_val(s.last())
    }
}

/// The 16-bit value of exactly four hex digits; `None` if `s` is not that.
pub open spec fn u16_of_hex4(s: Seq<u8>) -> Option<u16> {
    if s.len() == 4 && all_hex(s) {
        Some(hex_seq_val(s) as u16)
    } else {
        None
    }
}

/// Whether `b` is an ASCII decimal digit.
pub open spec fn is_dec_digit(b: u8) -> bool {
    48 <= b <= 57
}

/// Whether every byte of `s` is a decimal digit.
pub open spec fn all_dec(s: Seq<u8>) -> bool {
    forall|i: int| 0 <= i < s.len() ==> is_dec_digit(#[trigger] s[i])
}

/// The value of a big-endian string of decimal digits.
pub open spec fn dec_val(s: Seq<u8>) -> nat
    decreases s.len(),
{
    if s.len() == 0 {
        0
    } else {
        dec_val(s.drop_last()) * 10 + (s.last() - 48) as nat
    }
}

/// `s` with leading ASCII spaces removed.
pub open spec fn trim_spaces(s: Seq<u8>) -> Seq<u8>
    decreases s.len(),
{
    if s.len() > 0 && s[0] == 32 {
        trim_spaces(s.skip(1))
    } else {
        s
    }
}

/// The i16 denoted by `s` as a decimal field: optional leading spaces,
/// optional `+`/`-` sign, then digits; `None` when malformed or when the
/// value falls outside the i16 range.
pub open spec fn i16_of_dec(s: Seq<u8>) -> Option<i16> {
    let t = trim_spaces(s);
    if t.len() == 0 {
        None
    } else {
        let neg = t[0] == 45;
        let d = if t[0] == 45 || t[0] == 43 {
            t.skip(1)
        } else {
            t
        };
        if d.len() == 0 || !all_dec(d) {
            None
        } else {
            let v = dec_val(d) as int;
            if neg {
                if v <= 32768 {
                    Some((-v) as i16)
                } else {
                    None
                }
            } else {
                if v <= 32767 {
                    Some(v as i16)
                } else {
                    None
                }
            }
        }
    }
}

/// The u8 denoted by `s` as a decimal field: optional leading spaces, then
/// digits; `None` when malformed or above 255.
pub open spec fn u8_of_dec(s: Seq<u8>) -> Option<u8> {
    let t = trim_spaces(s);
    if t.len() == 0 || !all_dec(t) {
        None
    } else if dec_val(t) <= 255 {
        Some(dec_val(t) as u8)
    } else {
        None
    }
}

/// The index of the last `*` in `s`, or -1 when there is none.
pub open spec fn rfind_star(s: Seq<u8>) -> int
    decreases s.len(),
{
    if s.len() == 0 {
        -1
    } else if s.last() == 42 {
        s.len() - 1
    } else {
        rfind_star(s.drop_last())
    }
}

/// A stripped line is well framed when it is long enough, its last `*`
/// stands exactly before a two-hex-digit checksum field at the end.
pub open spec fn frame_ok(s: Seq<u8>, min_len: int) -> bool {
    &&& s.len() >= min_len
    &&& rfind_star(s) == s.len() - 3
    &&& is_hex_digit(s[s.len() - 2])
    &&& is_hex_digit(s[s.len() - 1])
}

/// The payload of a well-framed stripped line: the bytes between the
/// prefix character and the `*`.
pub open spec fn payload_of(s: Seq<u8>) -> Seq<u8> {
    s.subrange(1, s.len() - 3)
}

/// Whether the received checksum field equals the XOR fold of the payload.
pub open spec fn checksum_ok(s: Seq<u8>) -> bool {
    hex_seq_val(s.subrange(s.len() - 2, s.len() as int)) == xor_fold(payload_of(s))
}

/// The parts of `s` split on `:` separators; one part more than there are
/// colons, in order, each part colon-free.
pub open spec fn split_colons(s: Seq<u8>) -> Seq<Seq<u8>>
    decreases s.len(),
{
    if s.len() == 0 {
        seq![Seq::empty()]
    } else if s[0] == 58 {
        seq![Seq::empty()] + split_colons(s.skip(1))
    } else {
        let rest = split_colons(s.skip(1));
        seq![seq![s[0]] + rest[0]] + rest.skip(1)
    }
}

/// The index of the first `:` in `s`, or -1 when there is none.
pub open spec fn find_colon(s: Seq<u8>) -> int
    decreases s.len(),
{
    if s.len() == 0 {
        -1
    } else if s[0] == 58 {
        0
    } else {
        let r = find_colon(s.skip(1));
        if r < 0 {
            -1
        } else {
            r + 1
        }
    }
}

/// The gamepad state denoted by the seven colon-separated parts of a
/// full-state payload: four hex digits of buttons, four signed stick
/// fields, two unsigned trigger fields.
pub open spec fn full_state_of_parts(parts: Seq<Seq<u8>>) -> Option<GamepadState> {
    if parts.len() != 7 {
        None
    } else {
        let b = u16_of_hex4(parts[0]);
        let lx = i16_of_dec(parts[1]);
        let ly = i16_of_dec(parts[2]);
        let rx = i16_of_dec(parts[3]);
        let ry = i16_of_dec(parts[4]);
        let lt = u8_of_dec(parts[5]);
        let rt = u8_of_dec(parts[6]);
        if b is Some && lx is Some && ly is Some && rx is Some && ry is Some && lt is Some
            && rt is Some {
            Some(
                GamepadState {
                    buttons: Buttons(b.unwrap()),
                    left_stick: AnalogStick { x: lx.unwrap(), y: ly.unwrap() },
                    right_stick: AnalogStick { x: rx.unwrap(), y: ry.unwrap() },
                    left_trigger: lt.unwrap(),
                    right_trigger: rt.unwrap(),
                },
            )
        } else {
            None
        }
    }
}

/// The field update denoted by an update payload: a field identifier
/// before the first colon, its value after it.
pub open spec fn update_of_payload(p: Seq<u8>) -> Option<GamepadFieldUpdate> {
    let i = find_colon(p);
    if i < 0 {
        None
    } else {
        let field = p.take(i);
        let value = p.skip(i + 1);
        if field == seq![66u8] {
            match u16_of_hex4(value) {
                Some(v) => Some(GamepadFieldUpdate::Buttons(Buttons(v))),
                None => None,
            }
        } else if field == seq![76u8, 88u8] {
            match i16_of_dec(value) {
                Some(v) => Some(GamepadFieldUpdate::LeftStickX(v)),
                None => None,
            }
        } else if field == seq![76u8, 89u8] {
            match i16_of_dec(value) {
                Some(v) => Some(GamepadFieldUpdate::LeftStickY(v)),
                None => None,
            }
        } else if field == seq![82u8, 88u8] {
            match i16_of_dec(value) {
                Some(v) => Some(GamepadFieldUpdate::RightStickX(v)),
                None => None,
            }
        } else if field == seq![82u8, 89u8] {
            match i16_of_dec(value) {
                Some(v) => Some(GamepadFieldUpdate::RightStickY(v)),
                None => None,
            }
        } else if field == seq![76u8, 84u8] {
            match u8_of_dec(value) {
                Some(v) => Some(GamepadFieldUpdate::LeftTrigger(v)),
                None => None,
            }
        } else if field == seq![82u8, 84u8] {
            match u8_of_dec(value) {
                Some(v) => Some(GamepadFieldUpdate::RightTrigger(v)),
                None => None,
            }
        } else {
            None
        }
    }
}

/// What parsing a stripped full-state line returns.
pub open spec fn parse_full_stripped(s: Seq<u8>) -> Result<GamepadState, InputError> {
    if s.len() == 0 || s[0] != 71 {
        Err(InputError::Parse)
    } else if !frame_ok(s, MIN_FULL_STATE_LEN as int) {
        Err(InputError::Parse)
    } else if !checksum_ok(s) {
        Err(InputError::Checksum)
    } else {
        match full_state_of_parts(split_colons(payload_of(s))) {
            Some(st) => Ok(st),
            None => Err(InputError::Parse),
        }
    }
}

/// What parsing a stripped update line returns.
pub open spec fn parse_update_stripped(s: Seq<u8>) -> Result<GamepadFieldUpdate, InputError> {
    if s.len() == 0 || s[0] != 85 {
        Err(InputError::Parse)
    } else if !frame_ok(s, MIN_UPDATE_LEN as int) {
        Err(InputError::Parse)
    } else if !checksum_ok(s) {
        Err(InputError::Checksum)
    } else {
        match update_of_payload(payload_of(s)) {
            Some(u) => Ok(u),
            None => Err(InputError::Parse),
        }
    }
}

/// What `parse` returns on a raw line.
pub open spec fn parse_full_spec(raw: Seq<u8>) -> Result<GamepadState, InputError> {
    parse_full_stripped(strip_eol(raw))
}

/// What `parse_message` returns on a raw line.
pub open spec fn parse_message_spec(raw: Seq<u8>) -> Result<ParsedMessage, InputError> {
    let s = strip_eol(raw);
    if s.len() == 0 {
        Err(InputError::Parse)
    } else if s[0] == 71 {
        match parse_full_stripped(s) {
            Ok(st) => Ok(ParsedMessage::FullState(st)),
            Err(e) => Err(e),
        }
    } else if s[0] == 85 {
        match parse_update_stripped(s) {
            Ok(u) => Ok(ParsedMessage::Update(u)),
            Err(e) => Err(e),
        }
    } else {
        Err(InputError::Parse)
    }
}

// ---------------------------------------------------------------------------
// Lemmas about the spec model
// ---------------------------------------------------------------------------

/// The last `*` is a real `*`, within bounds, with none after it;
/// -1 means there is none at all.
pub proof fn lemma_rfind_star(s: Seq<u8>)
    ensures
        rfind_star(s) >= -1,
        rfind_star(s) == -1 ==> forall|j: int| 0 <= j < s.len() ==> s[j] != 42,
        rfind_star(s) >= 0 ==> {
            &&& rfind_star(s) < s.len()
            &&& s[rfind_star(s)] == 42
            &&& forall|j: int| rfind_star(s) < j < s.len() ==> s[j] != 42
        },
    decreases s.len(),
{
    if s.len() > 0 && s.last() != 42 {
        lemma_rfind_star(s.drop_last());
        assert forall|j: int| 0 <= j < s.len() - 1 implies s.drop_last()[j] == s[j] by {}
    }
}

/// A hex digit string of bounded length has a bounded value.
pub proof fn lemma_hex_seq_val_bound(s: Seq<u8>)
    requires
        all_hex(s),
    ensures
        s.len() <= 1 ==> hex_seq_val(s) < 16,
        s.len() <= 2 ==> hex_seq_val(s) < 256,
        s.len() <= 3 ==> hex_seq_val(s) < 4096,
        s.len() <= 4 ==> hex_seq_val(s) < 65536,
    decreases s.len(),
{
    if s.len() > 0 {
        assert(all_hex(s.drop_last())) by {
            assert(forall|i: int|
                0 <= i < s.len() - 1 ==> #[trigger] s.drop_last()[i] == s[i]);
        }
        lemma_hex_seq_val_bound(s.drop_last());
        assert(hex_val(s.last()) < 16);
    }
}

/// A longer prefix of a digit string never denotes a smaller value.
pub proof fn lemma_dec_val_prefix(s: Seq<u8>, i: int)
    requires
        all_dec(s),
        0 <= i <= s.len(),
    ensures
        dec_val(s) >= dec_val(s.take(i)),
    decreases s.len() - i,
{
    if i < s.len() {
        lemma_dec_val_prefix(s, i + 1);
        assert(s.take(i + 1).drop_last() =~= s.take(i));
        assert(dec_val(s.take(i + 1)) == dec_val(s.take(i)) * 10 + (s[i] - 48));
    } else {
        assert(s.take(i) =~= s);
    }
}

/// `split_colons` always yields at least one part.
pub proof fn lemma_split_colons_len(s: Seq<u8>)
    ensures
        split_colons(s).len() >= 1,
    decreases s.len(),
{
    if s.len() > 0 && s[0] != 58 {
        lemma_split_colons_len(s.skip(1));
    }
}

/// The first colon is a real colon, within bounds, with none before it;
/// -1 means there is none at all.
pub proof fn lemma_find_colon(s: Seq<u8>)
    ensures
        find_colon(s) == -1 ==> forall|j: int| 0 <= j < s.len() ==> s[j] != 58,
        find_colon(s) >= 0 ==> {
            &&& find_colon(s) < s.len()
            &&& s[find_colon(s)] == 58
            &&& forall|j: int| 0 <= j < find_colon(s) ==> s[j] != 58
        },
    decreases s.len(),
{
    if s.len() > 0 && s[0] != 58 {
        lemma_find_colon(s.skip(1));
        let r = find_colon(s.skip(1));
        if r == -1 {
            assert forall|j: int| 0 <= j < s.len() implies s[j] != 58 by {
                if j >= 1 {
                    assert(s.skip(1)[j - 1] == s[j]);
                }
            }
        } else {
            assert(s.skip(1)[r] == s[r + 1]);
            assert forall|j: int| 0 <= j < find_colon(s) implies s[j] != 58 by {
                if j >= 1 {
                    assert(s.skip(1)[j - 1] == s[j]);
                }
            }
        }
    }
}


// ---------------------------------------------------------------------------
// Executable parsing
// ---------------------------------------------------------------------------

/// The views of a sequence of byte vectors.
pub open spec fn seq_views(parts: Seq<Vec<u8>>) -> Seq<Seq<u8>> {
    parts.map_values(|v: Vec<u8>| v@)
}

/// Convert a hex character to its value.
fn hex_digit(b: u8) -> (r: Result<u8, InputError>)
    ensures
        r == if is_hex_digit(b) {
            Ok::<u8, InputError>(hex_val(b) as u8)
        } else {
            Err::<u8, InputError>(InputError::Parse)
        },
{
    if 48 <= b && b <= 57 {
        Ok(b - 48)
    } else if 65 <= b && b <= 70 {
        Ok(b - 55)
    } else if 97 <= b && b <= 102 {
        Ok(b - 87)
    } else {
        Err(InputError::Parse)
    }
}

/// Parse a 4-character hex string as u16.
fn parse_hex_u16(s: &[u8]) -> (r: Result<u16, InputError>)
    ensures
        r == match u16_of_hex4(s@) {
            Some(v) => Ok::<u16, InputError>(v),
            None => Err::<u16, InputError>(InputError::Parse),
        },
{
    if s.len() != 4 {
        return Err(InputError::Parse);
    }
    let mut value: u16 = 0;
    let mut i: usize = 0;
    while i < 4
        invariant
            s@.len() == 4,
            0 <= i <= 4,
            all_hex(s@.take(i as int)),
            value == hex_seq_val(s@.take(i as int)),
        decreases 4 - i,
    {
        proof {
            lemma_hex_seq_val_bound(s@.take(i as int));
            assert(s@.take(i + 1).drop_last() =~= s@.take(i as int));
        }
        match hex_digit(s[i]) {
            Ok(d) => {
                value = value * 16 + (d as u16);
            },
            Err(e) => {
                proof {
                    assert(!all_hex(s@)) by {
                        assert(!is_hex_digit(s@[i as int]));
                    }
                }
                return Err(e);
            },
        }
        i = i + 1;
    }
    proof {
        assert(s@.take(4) =~= s@);
        lemma_hex_seq_val_bound(s@);
    }
    Ok(value)
}

/// Parse a 2-character hex string as u8.
fn parse_hex_u8(s: &[u8]) -> (r: Result<u8, InputError>)
    ensures
        r == if s@.len() == 2 && all_hex(s@) {
            Ok::<u8, InputError>(hex_seq_val(s@) as u8)
        } else {
            Err::<u8, InputError>(InputError::Parse)
        },
{
    if s.len() != 2 {
        return Err(InputError::Parse);
    }
    let high = match hex_digit(s[0]) {
        Ok(d) => d,
        Err(e) => {
            proof {
                assert(!is_hex_digit(s@[0]));
            }
            return Err(e);
        },
    };
    let low = match hex_digit(s[1]) {
        Ok(d) => d,
        Err(e) => {
            proof {
                assert(!is_hex_digit(s@[1]));
            }
            return Err(e);
        },
    };
    proof {
        assert(all_hex(s@)) by {
            assert forall|i: int| 0 <= i < s@.len() implies is_hex_digit(#[trigger] s@[i]) by {
                assert(i == 0 || i == 1);
            }
        }
        assert(s@.drop_last() =~= seq![s@[0]]);
        assert(seq![s@[0]].drop_last() =~= Seq::<u8>::empty());
        assert(hex_seq_val(Seq::<u8>::empty()) == 0);
        assert(hex_seq_val(seq![s@[0]]) == hex_val(s@[0]));
        assert(hex_seq_val(s@) == hex_val(s@[0]) * 16 + hex_val(s@[1]));
    }
    Ok(high * 16 + low)
}

/// Trim leading ASCII spaces.
fn trim_leading_whitespace(s: &[u8]) -> (r: &[u8])
    ensures
        r@ == trim_spaces(s@),
{
    let mut i: usize = 0;
    proof {
        assert(s@.skip(0) =~= s@);
    }
    while i < s.len() && s[i] == 32
        invariant
            0 <= i <= s@.len(),
            trim_spaces(s@) == trim_spaces(s@.skip(i as int)),
        decreases s@.len() - i,
    {
        proof {
            assert(s@.skip(i as int)[0] == s@[i as int]);
            assert(s@.skip(i as int).skip(1) =~= s@.skip(i + 1));
        }
        i = i + 1;
    }
    proof {
        if i < s@.len() {
            assert(s@.skip(i as int)[0] == s@[i as int]);
        }
        assert(trim_spaces(s@.skip(i as int)) == s@.skip(i as int));
        assert(s@.subrange(i as int, s@.len() as int) =~= s@.skip(i as int));
    }
    &s[i..s.len()]
}

/// Parse a decimal string as i16 (with optional leading spaces and sign).
fn parse_i16(s: &[u8]) -> (r: Result<i16, InputError>)
    ensures
        r == match i16_of_dec(s@) {
            Some(v) => Ok::<i16, InputError>(v),
            None => Err::<i16, InputError>(InputError::Parse),
        },
{
    let t = trim_leading_whitespace(s);
    if t.len() == 0 {
        return Err(InputError::Parse);
    }
    let neg: bool = t[0] == 45;
    let start: usize = if t[0] == 45 || t[0] == 43 {
        1
    } else {
        0
    };
    let ghost d = t@.skip(start as int);
    proof {
        if start == 0 {
            assert(t@.skip(0) =~= t@);
        }
    }
    if t.len() == start {
        return Err(InputError::Parse);
    }
    let mut value: u32 = 0;
    let mut i: usize = start;
    while i < t.len()
        invariant
            t@.len() > start,
            d == t@.skip(start as int),
            start <= i <= t@.len(),
            all_dec(d.take(i - start)),
            value == dec_val(d.take(i - start)),
            value <= 32768,
            neg ==> (t@[0] == 45),
            !neg ==> (t@[0] != 45),
            i16_of_dec(s@) == i16_of_dec_tail(neg, d),
        decreases t@.len() - i,
    {
        let b = t[i];
        proof {
            assert(d[i - start] == t@[i as int]);
            assert(d.take(i - start + 1).drop_last() =~= d.take(i - start));
            assert(d.take(i - start + 1).last() == d[i - start]);
        }
        if b < 48 || b > 57 {
            proof {
                assert(!all_dec(d)) by {
                    assert(!is_dec_digit(d[i - start]));
                }
            }
            return Err(InputError::Parse);
        }
        value = value * 10 + ((b - 48) as u32);
        if value > 32768 {
            proof {
                if all_dec(d) {
                    lemma_dec_val_prefix(d, i - start + 1);
                }
            }
            return Err(InputError::Parse);
        }
        i = i + 1;
    }
    proof {
        assert(d.take(t@.len() - start) =~= d);
    }
    if neg {
        Ok((-(value as i32)) as i16)
    } else {
        if value > 32767 {
            return Err(InputError::Parse);
        }
        Ok(value as i16)
    }
}

/// The tail of `i16_of_dec` after the sign has been split off: what the
/// digit string `d` denotes under sign `neg`.
pub open spec fn i16_of_dec_tail(neg: bool, d: Seq<u8>) -> Option<i16> {
    if d.len() == 0 || !all_dec(d) {
        None
    } else {
        let v = dec_val(d) as int;
        if neg {
            if v <= 32768 {
                Some((-v) as i16)
            } else {
                None
            }
        } else {
            if v <= 32767 {
                Some(v as i16)
            } else {
                None
            }
        }
    }
}

/// Parse a decimal string as u8 (with optional leading spaces).
fn parse_u8(s: &[u8]) -> (r: Result<u8, InputError>)
    ensures
        r == match u8_of_dec(s@) {
            Some(v) => Ok::<u8, InputError>(v),
            None => Err::<u8, InputError>(InputError::Parse),
        },
{
    let t = trim_leading_whitespace(s);
    if t.len() == 0 {
        return Err(InputError::Parse);
    }
    let mut value: u16 = 0;
    let mut i: usize = 0;
    while i < t.len()
        invariant
            t@.len() > 0,
            t@ == trim_spaces(s@),
            0 <= i <= t@.len(),
            all_dec(t@.take(i as int)),
            value == dec_val(t@.take(i as int)),
            value <= 255,
        decreases t@.len() - i,
    {
        let b = t[i];
        proof {
            assert(t@.take(i + 1).drop_last() =~= t@.take(i as int));
            assert(t@.take(i + 1).last() == t@[i as int]);
        }
        if b < 48 || b > 57 {
            proof {
                assert(!all_dec(t@)) by {
                    assert(!is_dec_digit(t@[i as int]));
                }
            }
            return Err(InputError::Parse);
        }
        value = value * 10 + ((b - 48) as u16);
        if value > 255 {
            proof {
                if all_dec(t@) {
                    lemma_dec_val_prefix(t@, i + 1);
                }
            }
            return Err(InputError::Parse);
        }
        i = i + 1;
    }
    proof {
        assert(t@.take(t@.len() as int) =~= t@);
    }
    Ok(value as u8)
}

/// Strip trailing CR and/or LF from a line.
fn strip_line_ending(line: &[u8]) -> (r: &[u8])
    ensures
        r@ == strip_eol(line@),
{
    let mut end: usize = line.len();
    if end > 0 && line[end - 1] == 10 {
        end = end - 1;
    }
    proof {
        assert(line@.subrange(0, end as int) =~= if line@.len() > 0 && line@.last() == 10 {
            line@.drop_last()
        } else {
            line@
        });
    }
    if end > 0 && line[end - 1] == 13 {
        end = end - 1;
    }
    proof {
        assert(line@.subrange(0, end as int) =~= strip_eol(line@));
    }
    &line[0..end]
}


/// The index of the last `*` in `line`, if any.
fn rposition_star(line: &[u8]) -> (r: Option<usize>)
    ensures
        rfind_star(line@) == -1 ==> (r is None),
        rfind_star(line@) >= 0 ==> r == Some(rfind_star(line@) as usize),
{
    let mut j: usize = line.len();
    proof {
        assert(line@.take(line@.len() as int) =~= line@);
    }
    while j > 0
        invariant
            0 <= j <= line@.len(),
            rfind_star(line@) == rfind_star(line@.take(j as int)),
        decreases j,
    {
        j = j - 1;
        proof {
            assert(line@.take(j + 1).drop_last() =~= line@.take(j as int));
            assert(line@.take(j + 1).last() == line@[j as int]);
        }
        if line[j] == 42 {
            return Some(j);
        }
    }
    None
}

/// Extract and verify the checksum, returning the payload slice.
///
/// The caller has stripped line endings already and checked the prefix
/// character, so the line is non-empty and does not start with `*`.
fn extract_verified_payload<'a>(line: &'a [u8], min_len: usize) -> (r: Result<&'a [u8], InputError>)
    requires
        line@.len() > 0,
        line@[0] == 71 || line@[0] == 85,
        min_len >= 4,
    ensures
        (r is Ok) <==> frame_ok(line@, min_len as int) && checksum_ok(line@),
        (r is Ok) ==> r.unwrap()@ == payload_of(line@),
        (r == Err::<&[u8], InputError>(InputError::Parse)) <==> !frame_ok(line@, min_len as int),
        (r == Err::<&[u8], InputError>(InputError::Checksum)) <==> frame_ok(line@, min_len as int)
            && !checksum_ok(line@),
{
    proof {
        lemma_rfind_star(line@);
    }
    if line.len() < min_len {
        return Err(InputError::Parse);
    }
    let checksum_pos = match rposition_star(line) {
        Some(p) => p,
        None => {
            return Err(InputError::Parse);
        },
    };
    if checksum_pos > line.len() - 3 {
        return Err(InputError::Parse);
    }
    proof {
        assert(rfind_star(line@) == checksum_pos as int);
        assert(line@[checksum_pos as int] == 42);
        assert(checksum_pos >= 1);
    }
    let payload = &line[1..checksum_pos];
    let checksum_str = &line[checksum_pos + 1..line.len()];
    let expected_checksum = crate::checksum::calculate_checksum(payload);
    let received_checksum = match parse_hex_u8(checksum_str) {
        Ok(v) => v,
        Err(e) => {
            proof {
                if checksum_pos == line@.len() - 3 {
                    assert(checksum_str@.len() == 2);
                    assert(checksum_str@[0] == line@[line@.len() - 2]);
                    assert(checksum_str@[1] == line@[line@.len() - 1]);
                }
            }
            return Err(e);
        },
    };
    proof {
        assert(checksum_str@.len() == 2);
        assert(checksum_pos == line@.len() - 3);
        assert(checksum_str@[0] == line@[line@.len() - 2]);
        assert(checksum_str@[1] == line@[line@.len() - 1]);
        assert(frame_ok(line@, min_len as int));
        assert(payload@ =~= payload_of(line@));
        assert(checksum_str@ =~= line@.subrange(line@.len() - 2, line@.len() as int));
        lemma_hex_seq_val_bound(checksum_str@);
    }
    if expected_checksum != received_checksum {
        return Err(InputError::Checksum);
    }
    Ok(payload)
}

/// Split `payload` into its colon-separated parts.
fn split_parts(payload: &[u8]) -> (parts: Vec<Vec<u8>>)
    ensures
        seq_views(parts@) == split_colons(payload@),
{
    let mut parts: Vec<Vec<u8>> = Vec::new();
    let mut cur: Vec<u8> = Vec::new();
    let mut i: usize = 0;
    proof {
        assert(payload@.skip(0) =~= payload@);
        lemma_split_colons_len(payload@);
        let whole = split_colons(payload@);
        assert(seq_views(parts@) + seq![cur@ + whole[0]] + whole.skip(1) =~= whole);
    }
    while i < payload.len()
        invariant
            0 <= i <= payload@.len(),
            split_colons(payload@) == seq_views(parts@) + seq![
                cur@ + split_colons(payload@.skip(i as int))[0],
            ] + split_colons(payload@.skip(i as int)).skip(1),
        decreases payload@.len() - i,
    {
        proof {
            lemma_split_colons_len(payload@.skip(i + 1));
            assert(payload@.skip(i as int)[0] == payload@[i as int]);
            assert(payload@.skip(i as int).skip(1) =~= payload@.skip(i + 1));
        }
        let ghost rest = split_colons(payload@.skip(i + 1));
        if payload[i] == 58 {
            let full_cur = cur;
            parts.push(full_cur);
            cur = Vec::new();
            proof {
                let prev_parts = parts@.drop_last();
                assert(seq_views(parts@) =~= seq_views(prev_parts).push(full_cur@));
                assert(split_colons(payload@.skip(i as int)) == seq![Seq::<u8>::empty()] + rest);
                assert(split_colons(payload@.skip(i as int))[0] =~= Seq::<u8>::empty());
                assert(split_colons(payload@.skip(i as int)).skip(1) =~= rest);
                assert(full_cur@ + Seq::<u8>::empty() =~= full_cur@);
                assert(rest =~= seq![rest[0]] + rest.skip(1));
                assert(split_colons(payload@) =~= seq_views(parts@) + seq![cur@ + rest[0]]
                    + rest.skip(1));
            }
        } else {
            let b = payload[i];
            let ghost old_cur = cur@;
            cur.push(b);
            proof {
                assert(split_colons(payload@.skip(i as int)) == seq![seq![b] + rest[0]]
                    + rest.skip(1));
                assert(split_colons(payload@.skip(i as int))[0] =~= seq![b] + rest[0]);
                assert(split_colons(payload@.skip(i as int)).skip(1) =~= rest.skip(1));
                assert(old_cur + (seq![b] + rest[0]) =~= cur@ + rest[0]);
                assert(split_colons(payload@) =~= seq_views(parts@) + seq![cur@ + rest[0]]
                    + rest.skip(1));
            }
        }
        i = i + 1;
    }
    proof {
        assert(payload@.skip(i as int) =~= Seq::<u8>::empty());
        assert(split_colons(Seq::<u8>::empty())[0] =~= Seq::<u8>::empty());
        assert(split_colons(Seq::<u8>::empty()).skip(1) =~= Seq::<Seq<u8>>::empty());
        assert(cur@ + Seq::<u8>::empty() =~= cur@);
    }
    let final_cur = cur;
    parts.push(final_cur);
    proof {
        let prev_parts = parts@.drop_last();
        assert(seq_views(parts@) =~= seq_views(prev_parts).push(final_cur@));
        assert(seq_views(parts@) =~= split_colons(payload@));
    }
    parts
}

/// Internal parser for a full gamepad state line, endings already stripped.
fn parse_full_state(line: &[u8]) -> (r: Result<GamepadState, InputError>)
    ensures
        r == parse_full_stripped(line@),
{
    if line.len() == 0 {
        return Err(InputError::Parse);
    }
    if line[0] != 71 {
        return Err(InputError::Parse);
    }
    let payload = match extract_verified_payload(line, MIN_FULL_STATE_LEN) {
        Ok(p) => p,
        Err(e) => {
            return Err(e);
        },
    };
    let parts = split_parts(payload);
    if parts.len() != 7 {
        return Err(InputError::Parse);
    }
    proof {
        assert(seq_views(parts@).len() == parts@.len());
        assert(forall|k: int|
            0 <= k < 7 ==> #[trigger] split_colons(payload@)[k] == parts@[k]@);
    }
    let buttons = match parse_hex_u16(parts[0].as_slice()) {
        Ok(v) => v,
        Err(e) => {
            return Err(e);
        },
    };
    let lx = match parse_i16(parts[1].as_slice()) {
        Ok(v) => v,
        Err(e) => {
            return Err(e);
        },
    };
    let ly = match parse_i16(parts[2].as_slice()) {
        Ok(v) => v,
        Err(e) => {
            return Err(e);
        },
    };
    let rx = match parse_i16(parts[3].as_slice()) {
        Ok(v) => v,
        Err(e) => {
            return Err(e);
        },
    };
    let ry = match parse_i16(parts[4].as_slice()) {
        Ok(v) => v,
        Err(e) => {
            return Err(e);
        },
    };
    let lt = match parse_u8(parts[5].as_slice()) {
        Ok(v) => v,
        Err(e) => {
            return Err(e);
        },
    };
    let rt = match parse_u8(parts[6].as_slice()) {
        Ok(v) => v,
        Err(e) => {
            return Err(e);
        },
    };
    Ok(
        GamepadState {
            buttons: Buttons(buttons),
            left_stick: AnalogStick { x: lx, y: ly },
            right_stick: AnalogStick { x: rx, y: ry },
            left_trigger: lt,
            right_trigger: rt,
        },
    )
}

/// Internal parser for an update line, endings already stripped.
fn parse_update(line: &[u8]) -> (r: Result<GamepadFieldUpdate, InputError>)
    ensures
        r == parse_update_stripped(line@),
{
    if line.len() == 0 {
        return Err(InputError::Parse);
    }
    if line[0] != 85 {
        return Err(InputError::Parse);
    }
    let payload = match extract_verified_payload(line, MIN_UPDATE_LEN) {
        Ok(p) => p,
        Err(e) => {
            return Err(e);
        },
    };
    proof {
        lemma_find_colon(payload@);
    }
    let mut j: usize = 0;
    while j < payload.len() && payload[j] != 58
        invariant
            0 <= j <= payload@.len(),
            forall|k: int| 0 <= k < j ==> payload@[k] != 58,
        decreases payload@.len() - j,
    {
        j = j + 1;
    }
    if j == payload.len() {
        return Err(InputError::Parse);
    }
    proof {
        assert(payload@[j as int] == 58);
        assert(find_colon(payload@) == j as int);
    }
    let field = &payload[0..j];
    let value = &payload[j + 1..payload.len()];
    proof {
        assert(field@ =~= payload@.take(j as int));
        assert(value@ =~= payload@.skip(j + 1));
    }
    if field.len() == 1 && field[0] == 66 {
        proof {
            assert(field@ =~= seq![66u8]);
        }
        match parse_hex_u16(value) {
            Ok(v) => Ok(GamepadFieldUpdate::Buttons(Buttons(v))),
            Err(e) => Err(e),
        }
    } else if field.len() == 2 && field[0] == 76 && field[1] == 88 {
        proof {
            assert(field@ =~= seq![76u8, 88u8]);
        }
        match parse_i16(value) {
            Ok(v) => Ok(GamepadFieldUpdate::LeftStickX(v)),
            Err(e) => Err(e),
        }
    } else if field.len() == 2 && field[0] == 76 && field[1] == 89 {
        proof {
            assert(field@ =~= seq![76u8, 89u8]);
        }
        match parse_i16(value) {
            Ok(v) => Ok(GamepadFieldUpdate::LeftStickY(v)),
            Err(e) => Err(e),
        }
    } else if field.len() == 2 && field[0] == 82 && field[1] == 88 {
        proof {
            assert(field@ =~= seq![82u8, 88u8]);
        }
        match parse_i16(value) {
            Ok(v) => Ok(GamepadFieldUpdate::RightStickX(v)),
            Err(e) => Err(e),
        }
    } else if field.len() == 2 && field[0] == 82 && field[1] == 89 {
        proof {
            assert(field@ =~= seq![82u8, 89u8]);
        }
        match parse_i16(value) {
            Ok(v) => Ok(GamepadFieldUpdate::RightStickY(v)),
            Err(e) => Err(e),
        }
    } else if field.len() == 2 && field[0] == 76 && field[1] == 84 {
        proof {
            assert(field@ =~= seq![76u8, 84u8]);
        }
        match parse_u8(value) {
            Ok(v) => Ok(GamepadFieldUpdate::LeftTrigger(v)),
            Err(e) => Err(e),
        }
    } else if field.len() == 2 && field[0] == 82 && field[1] == 84 {
        proof {
            assert(field@ =~= seq![82u8, 84u8]);
        }
        match parse_u8(value) {
            Ok(v) => Ok(GamepadFieldUpdate::RightTrigger(v)),
            Err(e) => Err(e),
        }
    } else {
        proof {
            assert(field@ != seq![66u8]);
            assert(field@ != seq![76u8, 88u8]);
            assert(field@ != seq![76u8, 89u8]);
            assert(field@ != seq![82u8, 88u8]);
            assert(field@ != seq![82u8, 89u8]);
            assert(field@ != seq![76u8, 84u8]);
            assert(field@ != seq![82u8, 84u8]);
        }
        Err(InputError::Parse)
    }
}

/// Parse a complete line into a `GamepadState`.
///
/// The line must be a full-state message: prefix `G`, seven
/// colon-separated payload fields, a `*`, two hex checksum digits, and
/// an optional CR/LF ending. Malformed lines give `InputError::Parse`;
/// well-framed lines whose checksum does not match give
/// `InputError::Checksum`.
pub fn parse(line: &[u8]) -> (r: Result<GamepadState, InputError>)
    ensures
        r == parse_full_spec(line@),
{
    let stripped = strip_line_ending(line);
    parse_full_state(stripped)
}

/// Parse any protocol message (full state or update), dispatching on the
/// prefix character: `G` for a full state, `U` for a field update.
pub fn parse_message(line: &[u8]) -> (r: Result<ParsedMessage, InputError>)
    ensures
        r == parse_message_spec(line@),
{
    let stripped = strip_line_ending(line);
    if stripped.len() == 0 {
        return Err(InputError::Parse);
    }
    if stripped[0] == 71 {
        match parse_full_state(stripped) {
            Ok(st) => Ok(ParsedMessage::FullState(st)),
            Err(e) => Err(e),
        }
    } else if stripped[0] == 85 {
        match parse_update(stripped) {
            Ok(u) => Ok(ParsedMessage::Update(u)),
            Err(e) => Err(e),
        }
    } else {
        Err(InputError::Parse)
    }
}
} // verus!
