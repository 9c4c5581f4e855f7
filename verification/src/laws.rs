//! Codec laws: every message the serializer produces parses back to the
//! value it came from, and any single corrupted payload byte or wrong
//! checksum field is rejected as a checksum error.

use vstd::prelude::*;
use crate::checksum::xor_fold;
use crate::input::InputError;
use crate::parser::{
    all_dec, all_hex, checksum_ok, dec_val, find_colon, frame_ok, hex_seq_val, hex_val,
    i16_of_dec, is_dec_digit, is_hex_digit, lemma_find_colon, lemma_split_colons_len,
    parse_full_spec, parse_full_stripped, parse_message_spec, parse_update_stripped, payload_of,
    rfind_star, split_colons, strip_eol, trim_spaces, u16_of_hex4, u8_of_dec, ParsedMessage,
    MIN_FULL_STATE_LEN, MIN_UPDATE_LEN,
};
use crate::serialize::{
    full_msg, full_payload, lemma_full_payload_len, lemma_update_payload_len, update_msg,
    update_payload,
};
use crate::textfmt::{
    dec_digits, hex2, hex4, hex_char, i16_dec, lemma_dec_digits_are_digits, lemma_dec_digits_len,
    u8_dec,
};
use crate::types::{Buttons, GamepadFieldUpdate, GamepadState};

verus! {

/// No byte of `s` is a colon.
pub open spec fn colon_free(s: Seq<u8>) -> bool {
    forall|i: int| 0 <= i < s.len() ==> #[trigger] s[i] != 58
}

/// No byte of `s` is a star.
pub open spec fn star_free(s: Seq<u8>) -> bool {
    forall|i: int| 0 <= i < s.len() ==> #[trigger] s[i] != 42
}

/// A decimal rendering holds digit characters only.
pub proof fn lemma_dec_digits_free(n: nat)
    ensures
        colon_free(dec_digits(n)),
        star_free(dec_digits(n)),
        all_dec(dec_digits(n)),
{
    lemma_dec_digits_are_digits(n);
}

/// A signed rendering holds a sign and digit characters only.
pub proof fn lemma_i16_dec_free(v: i16)
    ensures
        colon_free(i16_dec(v)),
        star_free(i16_dec(v)),
{
    if v >= 0 {
        lemma_dec_digits_free(v as nat);
    } else {
        lemma_dec_digits_free((-(v as int)) as nat);
        assert forall|i: int| 0 <= i < i16_dec(v).len() implies #[trigger] i16_dec(v)[i]
            != 58 by {
            if i >= 1 {
                assert(i16_dec(v)[i] == dec_digits((-(v as int)) as nat)[i - 1]);
            }
        }
        assert forall|i: int| 0 <= i < i16_dec(v).len() implies #[trigger] i16_dec(v)[i]
            != 42 by {
            if i >= 1 {
                assert(i16_dec(v)[i] == dec_digits((-(v as int)) as nat)[i - 1]);
            }
        }
    }
}

/// A hex digit character maps back to its value.
pub proof fn lemma_hex_char_val(x: int)
    requires
        0 <= x < 16,
    ensures
        is_hex_digit(hex_char(x)),
        hex_val(hex_char(x)) == x,
        hex_char(x) != 58,
        hex_char(x) != 42,
        hex_char(x) != 13,
        hex_char(x) != 10,
{
}

/// A four-digit hex rendering holds hex digit characters only and maps
/// back to its value.
pub proof fn lemma_hex4_roundtrip(v: u16)
    ensures
        all_hex(hex4(v)),
        colon_free(hex4(v)),
        star_free(hex4(v)),
        u16_of_hex4(hex4(v)) == Some(v),
{
    let x3 = v as int / 4096 % 16;
    let x2 = v as int / 256 % 16;
    let x1 = v as int / 16 % 16;
    let x0 = v as int % 16;
    lemma_hex_char_val(x3);
    lemma_hex_char_val(x2);
    lemma_hex_char_val(x1);
    lemma_hex_char_val(x0);
    let s = hex4(v);
    assert forall|i: int| 0 <= i < s.len() implies is_hex_digit(#[trigger] s[i]) by {
        assert(i == 0 || i == 1 || i == 2 || i == 3);
    }
    assert forall|i: int| 0 <= i < s.len() implies #[trigger] s[i] != 58 by {
        assert(i == 0 || i == 1 || i == 2 || i == 3);
    }
    assert forall|i: int| 0 <= i < s.len() implies #[trigger] s[i] != 42 by {
        assert(i == 0 || i == 1 || i == 2 || i == 3);
    }
    assert(s.drop_last() =~= seq![hex_char(x3), hex_char(x2), hex_char(x1)]);
    assert(seq![hex_char(x3), hex_char(x2), hex_char(x1)].drop_last() =~= seq![
        hex_char(x3),
        hex_char(x2),
    ]);
    assert(seq![hex_char(x3), hex_char(x2)].drop_last() =~= seq![hex_char(x3)]);
    assert(seq![hex_char(x3)].drop_last() =~= Seq::<u8>::empty());
    assert(hex_seq_val(Seq::<u8>::empty()) == 0);
    assert(hex_seq_val(seq![hex_char(x3)]) == x3);
    assert(hex_seq_val(seq![hex_char(x3), hex_char(x2)]) == x3 * 16 + x2);
    assert(hex_seq_val(seq![hex_char(x3), hex_char(x2), hex_char(x1)]) == (x3 * 16 + x2) * 16
        + x1);
    assert(hex_seq_val(s) == ((x3 * 16 + x2) * 16 + x1) * 16 + x0);
    assert(((v as int / 4096 % 16) * 16 + (v as int / 256 % 16)) * 16 * 16 + (v as int / 16 % 16)
        * 16 + (v as int % 16) == v as int) by (bit_vector);
    assert(hex_seq_val(s) == v as int);
}

/// A two-digit hex rendering holds hex digit characters only and maps
/// back to its value.
pub proof fn lemma_hex2_roundtrip(v: u8)
    ensures
        all_hex(hex2(v)),
        star_free(hex2(v)),
        hex_seq_val(hex2(v)) == v,
        is_hex_digit(hex2(v)[0]),
        is_hex_digit(hex2(v)[1]),
{
    let x1 = v as int / 16;
    let x0 = v as int % 16;
    lemma_hex_char_val(x1);
    lemma_hex_char_val(x0);
    let s = hex2(v);
    assert forall|i: int| 0 <= i < s.len() implies is_hex_digit(#[trigger] s[i]) by {
        assert(i == 0 || i == 1);
    }
    assert forall|i: int| 0 <= i < s.len() implies #[trigger] s[i] != 42 by {
        assert(i == 0 || i == 1);
    }
    assert(s.drop_last() =~= seq![hex_char(x1)]);
    assert(seq![hex_char(x1)].drop_last() =~= Seq::<u8>::empty());
    assert(hex_seq_val(Seq::<u8>::empty()) == 0);
    assert(hex_seq_val(seq![hex_char(x1)]) == x1);
    assert(hex_seq_val(s) == x1 * 16 + x0);
    assert((v as int / 16) * 16 + (v as int % 16) == v as int) by (bit_vector);
}

/// A decimal rendering maps back to its value.
pub proof fn lemma_dec_val_of_digits(n: nat)
    ensures
        dec_val(dec_digits(n)) == n,
    decreases n,
{
    if n < 10 {
        assert(seq![(48 + n) as u8].drop_last() =~= Seq::<u8>::empty());
        assert(dec_val(Seq::<u8>::empty()) == 0);
    } else {
        lemma_dec_val_of_digits(n / 10);
        assert(dec_digits(n).drop_last() =~= dec_digits(n / 10));
        assert(dec_digits(n).last() == (48 + n % 10) as u8);
        assert(dec_val(dec_digits(n)) == dec_val(dec_digits(n / 10)) * 10 + n % 10);
        assert((n / 10) * 10 + n % 10 == n) by (nonlinear_arith);
    }
}

/// A signed decimal rendering parses back to its value.
pub proof fn lemma_i16_dec_roundtrip(v: i16)
    ensures
        i16_of_dec(i16_dec(v)) == Some(v),
{
    let s = i16_dec(v);
    if v >= 0 {
        lemma_dec_digits_free(v as nat);
        lemma_dec_val_of_digits(v as nat);
        lemma_dec_digits_len(v as nat);
        assert(is_dec_digit(s[0]));
        assert(s[0] != 32);
        assert(trim_spaces(s) == s);
        assert(s[0] != 45 && s[0] != 43);
    } else {
        let mag = (-(v as int)) as nat;
        lemma_dec_digits_free(mag);
        lemma_dec_val_of_digits(mag);
        lemma_dec_digits_len(mag);
        assert(s[0] == 45);
        assert(trim_spaces(s) == s);
        let d = s.skip(1);
        assert(d =~= dec_digits(mag));
        assert(dec_val(d) == mag);
        assert(mag <= 32768);
    }
}

/// An unsigned decimal rendering parses back to its value.
pub proof fn lemma_u8_dec_roundtrip(v: u8)
    ensures
        u8_of_dec(u8_dec(v)) == Some(v),
{
    lemma_dec_digits_free(v as nat);
    lemma_dec_val_of_digits(v as nat);
    lemma_dec_digits_len(v as nat);
    let s = u8_dec(v);
    assert(is_dec_digit(s[0]));
    assert(s[0] != 32);
    assert(trim_spaces(s) == s);
}

/// Splitting a colon-free sequence yields that one part.
pub proof fn lemma_split_single(a: Seq<u8>)
    requires
        colon_free(a),
    ensures
        split_colons(a) == seq![a],
    decreases a.len(),
{
    if a.len() == 0 {
        assert(split_colons(a) =~~= seq![a]);
    } else {
        assert(a[0] != 58);
        assert(colon_free(a.skip(1))) by {
            assert(forall|i: int|
                0 <= i < a.len() - 1 ==> #[trigger] a.skip(1)[i] == a[i + 1]);
        }
        lemma_split_single(a.skip(1));
        assert(split_colons(a) =~= seq![seq![a[0]] + a.skip(1)]);
        assert(seq![a[0]] + a.skip(1) =~= a);
        assert(split_colons(a) =~= seq![a]);
    }
}

/// Splitting `a : rest`, with `a` colon-free, yields `a` and then the
/// parts of `rest`.
pub proof fn lemma_split_prefix(a: Seq<u8>, rest: Seq<u8>)
    requires
        colon_free(a),
    ensures
        split_colons(a + seq![58u8] + rest) == seq![a] + split_colons(rest),
    decreases a.len(),
{
    let s = a + seq![58u8] + rest;
    if a.len() == 0 {
        assert(s[0] == 58);
        assert(s.skip(1) =~= rest);
        assert(split_colons(s) == seq![Seq::<u8>::empty()] + split_colons(rest));
        assert(split_colons(s) =~~= seq![a] + split_colons(rest));
    } else {
        assert(s[0] == a[0]);
        assert(a[0] != 58);
        assert(colon_free(a.skip(1))) by {
            assert(forall|i: int|
                0 <= i < a.len() - 1 ==> #[trigger] a.skip(1)[i] == a[i + 1]);
        }
        lemma_split_prefix(a.skip(1), rest);
        assert(s.skip(1) =~= a.skip(1) + seq![58u8] + rest);
        let r = split_colons(s.skip(1));
        assert(r == seq![a.skip(1)] + split_colons(rest));
        lemma_split_colons_len(rest);
        assert(r[0] =~= a.skip(1));
        assert(r.skip(1) =~= split_colons(rest));
        assert(seq![s[0]] + r[0] =~= a);
        assert(split_colons(s) == seq![seq![s[0]] + r[0]] + r.skip(1));
        assert(split_colons(s) =~= seq![a] + split_colons(rest));
    }
}

/// If `s[p]` is a star and no later byte is, the last star is at `p`.
pub proof fn lemma_rfind_star_at(s: Seq<u8>, p: int)
    requires
        0 <= p < s.len(),
        s[p] == 42,
        forall|j: int| p < j < s.len() ==> s[j] != 42,
    ensures
        rfind_star(s) == p,
    decreases s.len(),
{
    if p == s.len() - 1 {
        assert(s.last() == 42);
    } else {
        assert(s.last() != 42);
        assert(forall|j: int| 0 <= j < s.len() - 1 ==> #[trigger] s.drop_last()[j] == s[j]);
        lemma_rfind_star_at(s.drop_last(), p);
    }
}

/// If `s[i]` is a colon and no earlier byte is, the first colon is at `i`.
pub proof fn lemma_find_colon_at(s: Seq<u8>, i: int)
    requires
        0 <= i < s.len(),
        s[i] == 58,
        forall|j: int| 0 <= j < i ==> s[j] != 58,
    ensures
        find_colon(s) == i,
{
    lemma_find_colon(s);
    let f = find_colon(s);
    if f == -1 {
        assert(s[i] != 58);
        assert(false);
    } else if f < i {
        assert(s[f] != 58);
        assert(false);
    } else if f > i {
        assert(s[i] != 58);
        assert(false);
    }
}


/// A message framed as `<prefix><payload>*<hex2(ck)><LF>`.
pub open spec fn framed_msg(prefix: u8, payload: Seq<u8>, ck: u8) -> Seq<u8> {
    seq![prefix] + payload + seq![42u8] + hex2(ck) + seq![10u8]
}

/// The same message after line-ending stripping.
pub open spec fn framed_line(prefix: u8, payload: Seq<u8>, ck: u8) -> Seq<u8> {
    seq![prefix] + payload + seq![42u8] + hex2(ck)
}

/// How the parser's framing model sees a framed message: stripping removes
/// exactly the LF, the last star is the separator, the checksum field is
/// two hex digits, and the checksum matches exactly when `ck` is the XOR
/// fold of the payload.
pub proof fn lemma_framed(prefix: u8, payload: Seq<u8>, ck: u8)
    ensures
        strip_eol(framed_msg(prefix, payload, ck)) == framed_line(prefix, payload, ck),
        framed_line(prefix, payload, ck).len() == payload.len() + 4,
        framed_line(prefix, payload, ck)[0] == prefix,
        rfind_star(framed_line(prefix, payload, ck)) == payload.len() + 1,
        is_hex_digit(framed_line(prefix, payload, ck)[payload.len() as int + 2]),
        is_hex_digit(framed_line(prefix, payload, ck)[payload.len() as int + 3]),
        payload_of(framed_line(prefix, payload, ck)) == payload,
        checksum_ok(framed_line(prefix, payload, ck)) <==> ck == xor_fold(payload),
{
    let m = framed_msg(prefix, payload, ck);
    let line = framed_line(prefix, payload, ck);
    lemma_hex2_roundtrip(ck);
    lemma_hex_char_val(ck as int / 16);
    lemma_hex_char_val(ck as int % 16);
    assert(m.last() == 10);
    assert(m.drop_last() =~= line);
    assert(line.last() == hex2(ck)[1]);
    assert(line.last() != 13);
    assert(strip_eol(m) =~= line);
    assert(line[payload.len() as int + 1] == 42);
    assert(line[payload.len() as int + 2] == hex2(ck)[0]);
    assert(line[payload.len() as int + 3] == hex2(ck)[1]);
    lemma_rfind_star_at(line, payload.len() as int + 1);
    assert(payload_of(line) =~= payload);
    assert(line.subrange(line.len() - 2, line.len() as int) =~= hex2(ck));
    assert(hex_seq_val(hex2(ck)) == ck);
}

/// Updating one element changes a XOR fold by the old and new bytes.
pub proof fn lemma_xor_fold_update(s: Seq<u8>, k: int, b: u8)
    requires
        0 <= k < s.len(),
    ensures
        xor_fold(s.update(k, b)) == xor_fold(s) ^ s[k] ^ b,
    decreases s.len(),
{
    if k == s.len() - 1 {
        assert(s.update(k, b).drop_last() =~= s.drop_last());
        assert(s.update(k, b).last() == b);
        let x = xor_fold(s.drop_last());
        let a = s[k];
        assert(x ^ b == (x ^ a) ^ a ^ b) by (bit_vector);
    } else {
        lemma_xor_fold_update(s.drop_last(), k, b);
        assert(s.update(k, b).drop_last() =~= s.drop_last().update(k, b));
        assert(s.update(k, b).last() == s.last());
        assert(s.drop_last()[k] == s[k]);
        let x = xor_fold(s.drop_last());
        let a = s[k];
        let l = s.last();
        assert((x ^ a ^ b) ^ l == (x ^ l) ^ a ^ b) by (bit_vector);
    }
}

/// A concatenation of star-free parts is star-free; likewise for colons.
pub proof fn lemma_free_concat(a: Seq<u8>, b: Seq<u8>)
    ensures
        star_free(a) && star_free(b) ==> star_free(a + b),
        colon_free(a) && colon_free(b) ==> colon_free(a + b),
{
    if star_free(a) && star_free(b) {
        assert forall|i: int| 0 <= i < (a + b).len() implies #[trigger] (a + b)[i] != 42 by {
            if i < a.len() {
                assert((a + b)[i] == a[i]);
            } else {
                assert((a + b)[i] == b[i - a.len()]);
            }
        }
    }
    if colon_free(a) && colon_free(b) {
        assert forall|i: int| 0 <= i < (a + b).len() implies #[trigger] (a + b)[i] != 58 by {
            if i < a.len() {
                assert((a + b)[i] == a[i]);
            } else {
                assert((a + b)[i] == b[i - a.len()]);
            }
        }
    }
}

/// Round trip for full-state messages: serializing any `GamepadState` and
/// parsing the resulting line gives back exactly that state, both through
/// `parse` and through `parse_message`.
#[verifier::rlimit(100)]
#[verifier::spinoff_prover]
pub proof fn lemma_roundtrip_full_state(s: GamepadState)
    ensures
        parse_full_spec(full_msg(s)) == Ok::<GamepadState, InputError>(s),
        parse_message_spec(full_msg(s)) == Ok::<ParsedMessage, InputError>(
            ParsedMessage::FullState(s),
        ),
{
    let p = full_payload(s);
    let ck = xor_fold(p);
    lemma_full_payload_len(s);
    assert(full_msg(s) == framed_msg(71, p, ck));
    lemma_framed(71, p, ck);
    let line = framed_line(71, p, ck);
    assert(frame_ok(line, MIN_FULL_STATE_LEN as int));
    assert(checksum_ok(line));

    let c = seq![58u8];
    let f0 = hex4(s.buttons.0);
    let f1 = i16_dec(s.left_stick.x);
    let f2 = i16_dec(s.left_stick.y);
    let f3 = i16_dec(s.right_stick.x);
    let f4 = i16_dec(s.right_stick.y);
    let f5 = u8_dec(s.left_trigger);
    let f6 = u8_dec(s.right_trigger);
    lemma_hex4_roundtrip(s.buttons.0);
    lemma_i16_dec_roundtrip(s.left_stick.x);
    lemma_i16_dec_roundtrip(s.left_stick.y);
    lemma_i16_dec_roundtrip(s.right_stick.x);
    lemma_i16_dec_roundtrip(s.right_stick.y);
    lemma_u8_dec_roundtrip(s.left_trigger);
    lemma_u8_dec_roundtrip(s.right_trigger);
    lemma_i16_dec_free(s.left_stick.x);
    lemma_i16_dec_free(s.left_stick.y);
    lemma_i16_dec_free(s.right_stick.x);
    lemma_i16_dec_free(s.right_stick.y);
    lemma_dec_digits_free(s.left_trigger as nat);
    lemma_dec_digits_free(s.right_trigger as nat);

    let t2 = f2 + c + (f3 + c + (f4 + c + (f5 + c + f6)));
    let t1 = f1 + c + t2;
    assert(p =~= f0 + c + t1);
    lemma_split_prefix(f0, t1);
    lemma_split_prefix(f1, t2);
    lemma_split_prefix(f2, f3 + c + (f4 + c + (f5 + c + f6)));
    lemma_split_prefix(f3, f4 + c + (f5 + c + f6));
    lemma_split_prefix(f4, f5 + c + f6);
    lemma_split_prefix(f5, f6);
    lemma_split_single(f6);
    assert(split_colons(p) =~= seq![f0, f1, f2, f3, f4, f5, f6]);
    assert(split_colons(p)[0] == f0);
    assert(parse_full_stripped(line) == Ok::<GamepadState, InputError>(s));
}

/// Round trip for update messages: serializing any `GamepadFieldUpdate`
/// and parsing the resulting line gives back exactly that update.
pub proof fn lemma_roundtrip_update(u: GamepadFieldUpdate)
    ensures
        parse_update_stripped(framed_line(85, update_payload(u), xor_fold(update_payload(u))))
            == Ok::<GamepadFieldUpdate, InputError>(u),
        parse_message_spec(update_msg(u)) == Ok::<ParsedMessage, InputError>(
            ParsedMessage::Update(u),
        ),
{
    let p = update_payload(u);
    let ck = xor_fold(p);
    lemma_update_payload_len(u);
    assert(update_msg(u) == framed_msg(85, p, ck));
    lemma_framed(85, p, ck);
    let line = framed_line(85, p, ck);
    assert(frame_ok(line, MIN_UPDATE_LEN as int));
    assert(checksum_ok(line));
    match u {
        GamepadFieldUpdate::Buttons(b) => {
            lemma_hex4_roundtrip(b.0);
            assert(p[1] == 58 && p[0] == 66);
            lemma_find_colon_at(p, 1);
            assert(p.take(1) =~= seq![66u8]);
            assert(p.skip(2) =~= hex4(b.0));
        },
        GamepadFieldUpdate::LeftStickX(v) => {
            lemma_i16_dec_roundtrip(v);
            assert(p[2] == 58 && p[0] == 76 && p[1] == 88);
            lemma_find_colon_at(p, 2);
            assert(p.take(2) =~= seq![76u8, 88u8]);
            assert(p.skip(3) =~= i16_dec(v));
        },
        GamepadFieldUpdate::LeftStickY(v) => {
            lemma_i16_dec_roundtrip(v);
            assert(p[2] == 58 && p[0] == 76 && p[1] == 89);
            lemma_find_colon_at(p, 2);
            assert(p.take(2) =~= seq![76u8, 89u8]);
            assert(p.skip(3) =~= i16_dec(v));
        },
        GamepadFieldUpdate::RightStickX(v) => {
            lemma_i16_dec_roundtrip(v);
            assert(p[2] == 58 && p[0] == 82 && p[1] == 88);
            lemma_find_colon_at(p, 2);
            assert(p.take(2) =~= seq![82u8, 88u8]);
            assert(p.skip(3) =~= i16_dec(v));
        },
        GamepadFieldUpdate::RightStickY(v) => {
            lemma_i16_dec_roundtrip(v);
            assert(p[2] == 58 && p[0] == 82 && p[1] == 89);
            lemma_find_colon_at(p, 2);
            assert(p.take(2) =~= seq![82u8, 89u8]);
            assert(p.skip(3) =~= i16_dec(v));
        },
        GamepadFieldUpdate::LeftTrigger(v) => {
            lemma_u8_dec_roundtrip(v);
            assert(p[2] == 58 && p[0] == 76 && p[1] == 84);
            lemma_find_colon_at(p, 2);
            assert(p.take(2) =~= seq![76u8, 84u8]);
            assert(p.skip(3) =~= u8_dec(v));
        },
        GamepadFieldUpdate::RightTrigger(v) => {
            lemma_u8_dec_roundtrip(v);
            assert(p[2] == 58 && p[0] == 82 && p[1] == 84);
            lemma_find_colon_at(p, 2);
            assert(p.take(2) =~= seq![82u8, 84u8]);
            assert(p.skip(3) =~= u8_dec(v));
        },
    }
    assert(strip_eol(update_msg(u)) == line);
    assert(line[0] == 85);
}

/// Checksum sensitivity: flipping any single payload byte of a serialized
/// full-state message, without recomputing the checksum, makes parsing
/// fail with a checksum error, never a silent accept.
pub proof fn lemma_checksum_flip(s: GamepadState, i: int, b: u8)
    requires
        1 <= i < 1 + full_payload(s).len(),
        b != full_msg(s)[i],
    ensures
        parse_full_spec(full_msg(s).update(i, b)) == Err::<GamepadState, InputError>(
            InputError::Checksum,
        ),
{
    let p = full_payload(s);
    let ck = xor_fold(p);
    lemma_full_payload_len(s);
    let p2 = p.update(i - 1, b);
    assert(full_msg(s)[i] == p[i - 1]);
    assert(full_msg(s).update(i, b) =~= framed_msg(71, p2, ck));
    lemma_framed(71, p2, ck);
    let line = framed_line(71, p2, ck);
    assert(frame_ok(line, MIN_FULL_STATE_LEN as int));
    lemma_xor_fold_update(p, i - 1, b);
    let x = xor_fold(p);
    let a = p[i - 1];
    assert(x ^ a ^ b != x) by (bit_vector)
        requires
            a != b,
    ;
    assert(!checksum_ok(line));
    assert(line[0] == 71);
}

/// Checksum sensitivity: a full-state message whose checksum field holds
/// any value other than the payload's XOR fold is rejected with a
/// checksum error.
pub proof fn lemma_checksum_wrong_field(s: GamepadState, c: u8)
    requires
        c != xor_fold(full_payload(s)),
    ensures
        parse_full_spec(framed_msg(71, full_payload(s), c)) == Err::<GamepadState, InputError>(
            InputError::Checksum,
        ),
{
    let p = full_payload(s);
    lemma_full_payload_len(s);
    lemma_framed(71, p, c);
    let line = framed_line(71, p, c);
    assert(frame_ok(line, MIN_FULL_STATE_LEN as int));
    assert(!checksum_ok(line));
    assert(line[0] == 71);
}

/// Checksum sensitivity for update messages: flipping any single payload
/// byte of a serialized update message, without recomputing the checksum,
/// makes parsing fail with a checksum error.
pub proof fn lemma_checksum_flip_update(u: GamepadFieldUpdate, i: int, b: u8)
    requires
        1 <= i < 1 + update_payload(u).len(),
        b != update_msg(u)[i],
    ensures
        parse_message_spec(update_msg(u).update(i, b)) == Err::<ParsedMessage, InputError>(
            InputError::Checksum,
        ),
{
    let p = update_payload(u);
    let ck = xor_fold(p);
    lemma_update_payload_len(u);
    let p2 = p.update(i - 1, b);
    assert(update_msg(u)[i] == p[i - 1]);
    assert(update_msg(u).update(i, b) =~= framed_msg(85, p2, ck));
    lemma_framed(85, p2, ck);
    let line = framed_line(85, p2, ck);
    assert(frame_ok(line, MIN_UPDATE_LEN as int));
    lemma_xor_fold_update(p, i - 1, b);
    let x = xor_fold(p);
    let a = p[i - 1];
    assert(x ^ a ^ b != x) by (bit_vector)
        requires
            a != b,
    ;
    assert(!checksum_ok(line));
    assert(line[0] == 85);
}
} // verus!
