//! Reading unsigned integers out of a digest, bit by bit.
//!
//! Bit position `p` of a digest is bit `p % 8` (counted from the least
//! significant end) of the byte `p / 8` places from the end of the digest: the
//! traversal starts at the low bit of the last byte and ends at the high bit of
//! the first byte.
use vstd::arithmetic::power2::*;
use vstd::prelude::*;

verus! {

/// The bit at position `p` of digest `d`.
pub open spec fn digest_bit(d: Seq<u8>, p: int) -> bool {
    d[d.len() - 1 - p / 8] & (1u8 << ((p % 8) as u8)) != 0
}

/// The unsigned integer made of the `n` digest bits that start at position
/// `start`, the first of them being the most significant.
pub open spec fn slot_value(d: Seq<u8>, start: int, n: nat) -> nat
    decreases n,
{
    if n == 0 {
        0
    } else {
        2 * slot_value(d, start, (n - 1) as nat) + if digest_bit(d, start + n - 1) {
            1nat
        } else {
            0nat
        }
    }
}

/// A value read from `n` bits is below `2^n`.
pub proof fn lemma_slot_value_bound(d: Seq<u8>, start: int, n: nat)
    ensures
        slot_value(d, start, n) < pow2(n),
    decreases n,
{
    reveal(pow2);
    if n > 0 {
        lemma_slot_value_bound(d, start, (n - 1) as nat);
        lemma_pow2_unfold(n);
    } else {
        lemma_pow2_pos(0);
    }
}

/// A cursor over a digest that hands out runs of consecutive bits.
pub struct DigestCursor {
    bytes: Vec<u8>,
    pos: usize,
}

impl DigestCursor {
    /// The bytes the cursor reads.
    pub closed spec fn digest(&self) -> Seq<u8> {
        self.bytes@
    }

    /// The position of the next bit to read.
    pub closed spec fn position(&self) -> nat {
        self.pos as nat
    }

    /// A cursor at the first bit of `bytes`.
    pub fn new(bytes: Vec<u8>) -> (r: DigestCursor)
        ensures
            r.digest() == bytes@,
            r.position() == 0,
    {
        DigestCursor { bytes, pos: 0 }
    }

    /// Reads the next `n` bits as an unsigned integer, the first bit read being
    /// the most significant, and moves past them.
    pub fn read_bits(&mut self, n: u32) -> (r: usize)
        requires
            pow2(n as nat) <= usize::MAX + 1,
            old(self).position() + n <= old(self).digest().len() * 8 <= usize::MAX,
        ensures
            final(self).digest() == old(self).digest(),
            final(self).position() == old(self).position() + n,
            r as nat == slot_value(old(self).digest(), old(self).position() as int, n as nat),
    {
        let ghost start = self.pos as int;
        let mut value: usize = 0;
        let mut j: u32 = 0;
        while j < n
            invariant
                self.bytes@ == old(self).bytes@,
                start == old(self).pos,
                self.pos == start + j,
                j <= n,
                pow2(n as nat) <= usize::MAX + 1,
                start + n <= self.bytes@.len() * 8 <= usize::MAX,
                value as nat == slot_value(self.bytes@, start, j as nat),
            decreases n - j,
        {
            let byte_index: usize = self.pos / 8;
            let bit_in_byte: u8 = (self.pos % 8) as u8;
            let mask: u8 = 1u8 << bit_in_byte;
            let byte: u8 = self.bytes[self.bytes.len() - byte_index - 1];
            let bit: bool = byte & mask != 0;
            proof {
                lemma_slot_value_bound(self.bytes@, start, j as nat);
                lemma_pow2_unfold((j + 1) as nat);
                if j + 1 < n {
                    lemma_pow2_strictly_increases((j + 1) as nat, n as nat);
                }
            }
            value = value * 2 + if bit {
                1
            } else {
                0
            };
            self.pos = self.pos + 1;
            j = j + 1;
        }
        value
    }
}

} // verus!
