//! Integrity values for protocol messages: the single-byte XOR fold used by
//! the ASCII line codec, and a CRC-8/SMBUS checksum (polynomial 0x07,
//! zero initial value, no reflection) with an incremental digest.

use vstd::prelude::*;

verus! {

/// XOR of every byte of `s`; 0 for the empty sequence.
pub open spec fn xor_fold(s: Seq<u8>) -> u8
    decreases s.len(),
{
    if s.len() == 0 {
        0
    } else {
        xor_fold(s.drop_last()) ^ s.last()
    }
}

/// Calculate the XOR checksum of the given bytes.
pub fn calculate_checksum(data: &[u8]) -> (r: u8)
    ensures
        r == xor_fold(data@),
{
    let mut acc: u8 = 0;
    let mut i: usize = 0;
    while i < data.len()
        invariant
            0 <= i <= data@.len(),
            acc == xor_fold(data@.take(i as int)),
        decreases data@.len() - i,
    {
        proof {
            assert(data@.take(i + 1).drop_last() =~= data@.take(i as int));
        }
        acc = acc ^ data[i];
        i = i + 1;
    }
    proof {
        assert(data@.take(data@.len() as int) =~= data@);
    }
    acc
}

/// One shift step of CRC-8 with polynomial 0x07.
pub open spec fn crc8_step(c: u8) -> u8 {
    if c & 0x80 != 0 {
        (c << 1) ^ 0x07
    } else {
        c << 1
    }
}

/// `k` shift steps of CRC-8.
pub open spec fn crc8_shift(c: u8, k: nat) -> u8
    decreases k,
{
    if k == 0 {
        c
    } else {
        crc8_shift(crc8_step(c), (k - 1) as nat)
    }
}

/// Fold one byte into a CRC-8 value: XOR it in, then shift eight times.
pub open spec fn crc8_byte(c: u8, b: u8) -> u8 {
    crc8_shift(c ^ b, 8)
}

/// CRC-8/SMBUS of a byte sequence, starting from the zero initial value.
pub open spec fn crc8_fold(s: Seq<u8>) -> u8
    decreases s.len(),
{
    if s.len() == 0 {
        0
    } else {
        crc8_byte(crc8_fold(s.drop_last()), s.last())
    }
}

/// Fold one byte into a running CRC-8 value.
fn crc8_accumulate(c: u8, b: u8) -> (r: u8)
    ensures
        r == crc8_byte(c, b),
{
    let mut acc: u8 = c ^ b;
    let mut i: usize = 0;
    while i < 8
        invariant
            0 <= i <= 8,
            crc8_byte(c, b) == crc8_shift(acc, (8 - i) as nat),
        decreases 8 - i,
    {
        acc = if acc & 0x80 != 0 {
            (acc << 1) ^ 0x07
        } else {
            acc << 1
        };
        i = i + 1;
    }
    acc
}

/// Calculate the CRC-8/SMBUS checksum of a byte slice.
pub fn calculate_crc8(data: &[u8]) -> (r: u8)
    ensures
        r == crc8_fold(data@),
{
    let mut acc: u8 = 0;
    let mut i: usize = 0;
    while i < data.len()
        invariant
            0 <= i <= data@.len(),
            acc == crc8_fold(data@.take(i as int)),
        decreases data@.len() - i,
    {
        proof {
            assert(data@.take(i + 1).drop_last() =~= data@.take(i as int));
        }
        acc = crc8_accumulate(acc, data[i]);
        i = i + 1;
    }
    proof {
        assert(data@.take(data@.len() as int) =~= data@);
    }
    acc
}

/// CRC-8 digest for incremental calculation, byte by byte or slice by slice.
///
/// The digest always equals the batch checksum of the bytes fed so far.
pub struct Crc8Digest {
    crc: u8,
    processed: Ghost<Seq<u8>>,
}

impl Crc8Digest {
    /// The bytes fed to this digest so far.
    pub closed spec fn bytes(&self) -> Seq<u8> {
        self.processed@
    }

    /// The digest value is the batch CRC-8 of the bytes fed so far.
    pub closed spec fn wf(&self) -> bool {
        self.crc == crc8_fold(self.processed@)
    }

    /// Create a new CRC-8 digest.
    pub fn new() -> (r: Crc8Digest)
        ensures
            r.wf(),
            r.bytes() == Seq::<u8>::empty(),
    {
        Crc8Digest { crc: 0, processed: Ghost(Seq::empty()) }
    }

    /// Update the digest with a single byte.
    pub fn update(&mut self, byte: u8)
        requires
            old(self).wf(),
        ensures
            final(self).wf(),
            final(self).bytes() == old(self).bytes().push(byte),
    {
        proof {
            assert(self.processed@.push(byte).drop_last() =~= self.processed@);
        }
        self.crc = crc8_accumulate(self.crc, byte);
        self.processed = Ghost(self.processed@.push(byte));
    }

    /// Update the digest with a byte slice.
    pub fn update_slice(&mut self, data: &[u8])
        requires
            old(self).wf(),
        ensures
            final(self).wf(),
            final(self).bytes() == old(self).bytes() + data@,
    {
        let mut i: usize = 0;
        while i < data.len()
            invariant
                0 <= i <= data@.len(),
                self.wf(),
                self.bytes() == old(self).bytes() + data@.take(i as int),
            decreases data@.len() - i,
        {
            proof {
                let prior = old(self).bytes() + data@.take(i as int);
                assert(prior.push(data@[i as int]) =~= old(self).bytes() + data@.take(i + 1));
            }
            self.update(data[i]);
            i = i + 1;
        }
        proof {
            assert(data@.take(data@.len() as int) =~= data@);
        }
    }

    /// Finalize and return the checksum value.
    pub fn finalize(self) -> (r: u8)
        requires
            self.wf(),
        ensures
            r == crc8_fold(self.bytes()),
    {
        self.crc
    }
}

impl Default for Crc8Digest {
    /// A fresh digest, equal to `Crc8Digest::new()`.
    fn default() -> (r: Crc8Digest)
        ensures
            r.wf(),
            r.bytes() == Seq::<u8>::empty(),
    {
        Crc8Digest::new()
    }
}

} // verus!
