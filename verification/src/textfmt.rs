//! Textual renderings of numbers for the ASCII line protocol: uppercase hex
//! and decimal, written directly into caller-provided byte buffers without
//! heap allocation, with the exact output pinned by spec-level renderings.

use vstd::prelude::*;

verus! {

/// The uppercase hex digit character for a value `0..16`.
pub open spec fn hex_char(v: int) -> u8 {
    if v < 10 {
        (48 + v) as u8
    } else {
        (55 + v) as u8
    }
}

/// Four uppercase hex digits of a 16-bit value, most significant first.
pub open spec fn hex4(v: u16) -> Seq<u8> {
    seq![
        hex_char(v as int / 4096 % 16),
        hex_char(v as int / 256 % 16),
        hex_char(v as int / 16 % 16),
        hex_char(v as int % 16),
    ]
}

/// Two uppercase hex digits of an 8-bit value, most significant first.
pub open spec fn hex2(v: u8) -> Seq<u8> {
    seq![hex_char(v as int / 16), hex_char(v as int % 16)]
}

/// The decimal digit characters of `n`, most significant first,
/// without leading zeros (a lone `0` for zero).
pub open spec fn dec_digits(n: nat) -> Seq<u8>
    decreases n,
{
    if n < 10 {
        seq![(48 + n) as u8]
    } else {
        dec_digits(n / 10).push((48 + n % 10) as u8)
    }
}

/// The decimal rendering of an unsigned 8-bit value.
pub open spec fn u8_dec(v: u8) -> Seq<u8> {
    dec_digits(v as nat)
}

/// The decimal rendering of a signed 16-bit value: a `-` sign for negative
/// values, then the magnitude's digits.
pub open spec fn i16_dec(v: i16) -> Seq<u8> {
    if v >= 0 {
        dec_digits(v as nat)
    } else {
        seq![45u8] + dec_digits((-(v as int)) as nat)
    }
}

/// A decimal rendering has at least one character, and one more character
/// per factor of ten.
pub proof fn lemma_dec_digits_len(n: nat)
    ensures
        1 <= dec_digits(n).len(),
        n < 10 ==> dec_digits(n).len() == 1,
        n < 100 ==> dec_digits(n).len() <= 2,
        n < 1000 ==> dec_digits(n).len() <= 3,
        n < 10000 ==> dec_digits(n).len() <= 4,
        n < 100000 ==> dec_digits(n).len() <= 5,
    decreases n,
{
    if n >= 10 {
        lemma_dec_digits_len(n / 10);
    }
}

/// Every character of a decimal rendering is an ASCII digit.
pub proof fn lemma_dec_digits_are_digits(n: nat)
    ensures
        forall|i: int|
            0 <= i < dec_digits(n).len() ==> 48 <= #[trigger] dec_digits(n)[i] <= 57,
    decreases n,
{
    if n < 10 {
        assert(dec_digits(n)[0] == (48 + n) as u8);
    } else {
        lemma_dec_digits_are_digits(n / 10);
        assert forall|i: int| 0 <= i < dec_digits(n).len() implies 48 <= #[trigger] dec_digits(
            n,
        )[i] <= 57 by {
            if i < dec_digits(n / 10).len() {
                assert(dec_digits(n)[i] == dec_digits(n / 10)[i]);
            } else {
                assert(dec_digits(n)[i] == (48 + n % 10) as u8);
            }
        }
    }
}

/// The uppercase hex digit of a value below 16.
pub(crate) fn hex_char_of(v: u8) -> (r: u8)
    requires
        v < 16,
    ensures
        r == hex_char(v as int),
{
    if v < 10 {
        48 + v
    } else {
        55 + v
    }
}

/// Write a u16 as 4 uppercase hex digits at the start of `buf`.
///
/// Returns the number of bytes written (always 4); bytes past the
/// written prefix keep their prior values.
pub fn write_hex_u16(buf: &mut [u8], value: u16) -> (n: usize)
    requires
        old(buf)@.len() >= 4,
    ensures
        n == 4,
        final(buf)@.len() == old(buf)@.len(),
        final(buf)@.subrange(0, 4) == hex4(value),
        forall|j: int| 4 <= j < final(buf)@.len() ==> final(buf)@[j] == old(buf)@[j],
{
    buf[0] = hex_char_of((value / 4096 % 16) as u8);
    buf[1] = hex_char_of((value / 256 % 16) as u8);
    buf[2] = hex_char_of((value / 16 % 16) as u8);
    buf[3] = hex_char_of((value % 16) as u8);
    proof {
        assert(buf@.subrange(0, 4) =~= hex4(value));
    }
    4
}

/// Write a u8 as 2 uppercase hex digits at the start of `buf`.
///
/// Returns the number of bytes written (always 2); bytes past the
/// written prefix keep their prior values.
pub fn write_hex_u8(buf: &mut [u8], value: u8) -> (n: usize)
    requires
        old(buf)@.len() >= 2,
    ensures
        n == 2,
        final(buf)@.len() == old(buf)@.len(),
        final(buf)@.subrange(0, 2) == hex2(value),
        forall|j: int| 2 <= j < final(buf)@.len() ==> final(buf)@[j] == old(buf)@[j],
{
    buf[0] = hex_char_of(value / 16);
    buf[1] = hex_char_of(value % 16);
    proof {
        assert(buf@.subrange(0, 2) =~= hex2(value));
    }
    2
}

/// Write the decimal digits of `n` into `buf` starting at `pos`.
///
/// Returns the position just past the last digit written; bytes outside
/// the written range keep their prior values.
fn write_dec_u16(buf: &mut [u8], pos: usize, n: u16) -> (end: usize)
    requires
        pos + dec_digits(n as nat).len() <= old(buf)@.len(),
    ensures
        end == pos + dec_digits(n as nat).len(),
        final(buf)@.len() == old(buf)@.len(),
        final(buf)@.subrange(pos as int, end as int) == dec_digits(n as nat),
        forall|j: int|
            0 <= j < final(buf)@.len() && !(pos <= j < end) ==> final(buf)@[j] == old(buf)@[j],
    decreases n,
{
    proof {
        lemma_dec_digits_len(n as nat);
    }
    if n < 10 {
        buf[pos] = 48 + (n as u8);
        proof {
            assert(buf@.subrange(pos as int, pos + 1) =~= dec_digits(n as nat));
        }
        pos + 1
    } else {
        proof {
            assert(n / 10 < n) by (nonlinear_arith)
                requires
                    n >= 10,
            ;
        }
        let end = write_dec_u16(buf, pos, n / 10);
        buf[end] = 48 + ((n % 10) as u8);
        proof {
            assert(buf@.subrange(pos as int, end + 1) =~= dec_digits(n as nat));
        }
        end + 1
    }
}

/// Write an i16 as a signed decimal string at the start of `buf`.
///
/// Returns the number of bytes written (1-6); bytes past the written
/// prefix keep their prior values.
pub fn write_i16(buf: &mut [u8], value: i16) -> (n: usize)
    requires
        old(buf)@.len() >= 6,
    ensures
        n == i16_dec(value).len(),
        1 <= n <= 6,
        final(buf)@.len() == old(buf)@.len(),
        final(buf)@.subrange(0, n as int) == i16_dec(value),
        forall|j: int| n <= j < final(buf)@.len() ==> final(buf)@[j] == old(buf)@[j],
{
    if value >= 0 {
        proof {
            lemma_dec_digits_len(value as nat);
        }
        write_dec_u16(buf, 0, value as u16)
    } else {
        let mag: u16 = (-(value as i32)) as u16;
        proof {
            lemma_dec_digits_len(mag as nat);
        }
        buf[0] = 45;
        let end = write_dec_u16(buf, 1, mag);
        proof {
            assert(buf@.subrange(0, end as int) =~= i16_dec(value));
        }
        end
    }
}

/// Write a u8 as an unsigned decimal string at the start of `buf`.
///
/// Returns the number of bytes written (1-3); bytes past the written
/// prefix keep their prior values.
pub fn write_u8(buf: &mut [u8], value: u8) -> (n: usize)
    requires
        old(buf)@.len() >= 3,
    ensures
        n == u8_dec(value).len(),
        1 <= n <= 3,
        final(buf)@.len() == old(buf)@.len(),
        final(buf)@.subrange(0, n as int) == u8_dec(value),
        forall|j: int| n <= j < final(buf)@.len() ==> final(buf)@[j] == old(buf)@[j],
{
    proof {
        lemma_dec_digits_len(value as nat);
    }
    write_dec_u16(buf, 0, value as u16)
}

/// Append the decimal digits of `n` to `out`.
pub(crate) fn push_dec_u16(out: &mut Vec<u8>, n: u16)
    ensures
        final(out)@ == old(out)@ + dec_digits(n as nat),
    decreases n,
{
    if n < 10 {
        out.push(48 + (n as u8));
        proof {
            assert(out@ =~= old(out)@ + dec_digits(n as nat));
        }
    } else {
        proof {
            assert(n / 10 < n) by (nonlinear_arith)
                requires
                    n >= 10,
            ;
        }
        push_dec_u16(out, n / 10);
        out.push(48 + ((n % 10) as u8));
        proof {
            assert(out@ =~= old(out)@ + dec_digits(n as nat));
        }
    }
}

/// Append the signed decimal rendering of `value` to `out`.
pub(crate) fn push_i16_dec(out: &mut Vec<u8>, value: i16)
    ensures
        final(out)@ == old(out)@ + i16_dec(value),
{
    if value >= 0 {
        push_dec_u16(out, value as u16);
    } else {
        let mag: u16 = (-(value as i32)) as u16;
        out.push(45);
        push_dec_u16(out, mag);
        proof {
            assert(out@ =~= old(out)@ + i16_dec(value));
        }
    }
}

/// Append the decimal rendering of `value` to `out`.
pub(crate) fn push_u8_dec(out: &mut Vec<u8>, value: u8)
    ensures
        final(out)@ == old(out)@ + u8_dec(value),
{
    push_dec_u16(out, value as u16);
}

/// Append the four uppercase hex digits of `value` to `out`.
pub(crate) fn push_hex4(out: &mut Vec<u8>, value: u16)
    ensures
        final(out)@ == old(out)@ + hex4(value),
{
    out.push(hex_char_of((value / 4096 % 16) as u8));
    out.push(hex_char_of((value / 256 % 16) as u8));
    out.push(hex_char_of((value / 16 % 16) as u8));
    out.push(hex_char_of((value % 16) as u8));
    proof {
        assert(out@ =~= old(out)@ + hex4(value));
    }
}

/// Append the two uppercase hex digits of `value` to `out`.
pub(crate) fn push_hex2(out: &mut Vec<u8>, value: u8)
    ensures
        final(out)@ == old(out)@ + hex2(value),
{
    out.push(hex_char_of(value / 16));
    out.push(hex_char_of(value % 16));
    proof {
        assert(out@ =~= old(out)@ + hex2(value));
    }
}

} // verus!
