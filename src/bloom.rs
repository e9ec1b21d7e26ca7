//! The bloom filter: a bit array of `2^index_bits` bits and `hasher_count`
//! slot indices per key, each drawn from its own run of `index_bits` bits of
//! the key's SHA-512 digest.
use crate::bits::{bit_vec_from_elem, bit_vec_get, bit_vec_len, bit_vec_set, bits_of};
use vstd::string::*;
use crate::cursor::{lemma_slot_value_bound, slot_value, DigestCursor};
use crate::digest::{sha512, sha512_of, DIGEST_BITS, DIGEST_BYTES};
use bit_vec::BitVec;
use vstd::arithmetic::power2::*;
use vstd::prelude::*;

verus! {

/// The `hasher_count` slot indices drawn from digest `d`, slot `i` reading the
/// `index_bits` bits that start at position `i * index_bits`.
pub open spec fn slot_indices(d: Seq<u8>, index_bits: nat, hasher_count: nat) -> Seq<nat> {
    Seq::new(hasher_count, |i: int| slot_value(d, i * index_bits, index_bits))
}

/// The slot indices of `key`.
pub open spec fn key_indices(key: Seq<u8>, index_bits: nat, hasher_count: nat) -> Seq<nat> {
    slot_indices(sha512_of(key), index_bits, hasher_count)
}

/// `bits` with every position named among the first `m` entries of `idx` set.
pub open spec fn set_prefix(bits: Seq<bool>, idx: Seq<nat>, m: int) -> Seq<bool> {
    Seq::new(bits.len(), |j: int| bits[j] || exists|k: int| 0 <= k < m && idx[k] == j)
}

/// `bits` with every position named in `idx` set.
pub open spec fn set_positions(bits: Seq<bool>, idx: Seq<nat>) -> Seq<bool> {
    set_prefix(bits, idx, idx.len() as int)
}

/// Every position named in `idx` lies in `bits` and is set.
pub open spec fn all_set(bits: Seq<bool>, idx: Seq<nat>) -> bool {
    forall|k: int| 0 <= k < idx.len() ==> idx[k] < bits.len() && bits[idx[k] as int]
}

/// The bit array after `key` is added.
pub open spec fn spec_add(bits: Seq<bool>, key: Seq<u8>, index_bits: nat, hasher_count: nat) -> Seq<
    bool,
> {
    set_positions(bits, key_indices(key, index_bits, hasher_count))
}

/// Whether the bit array answers "maybe present" for `key`.
pub open spec fn spec_present(
    bits: Seq<bool>,
    key: Seq<u8>,
    index_bits: nat,
    hasher_count: nat,
) -> bool {
    all_set(bits, key_indices(key, index_bits, hasher_count))
}

/// The bit array after each of `keys` is added, in order.
pub open spec fn spec_add_all(
    bits: Seq<bool>,
    keys: Seq<Seq<u8>>,
    index_bits: nat,
    hasher_count: nat,
) -> Seq<bool>
    decreases keys.len(),
{
    if keys.len() == 0 {
        bits
    } else {
        spec_add_all(
            spec_add(bits, keys[0], index_bits, hasher_count),
            keys.drop_first(),
            index_bits,
            hasher_count,
        )
    }
}

/// The bits written out as `0` and `1`, each followed by a space.
pub open spec fn render_bits(bits: Seq<bool>) -> Seq<char>
    decreases bits.len(),
{
    if bits.len() == 0 {
        Seq::empty()
    } else {
        render_bits(bits.drop_last()) + if bits.last() {
            "1 "@
        } else {
            "0 "@
        }
    }
}

/// The answer of a membership query.
#[derive(PartialEq, Eq, Structural, Debug, Clone, Copy)]
pub enum BloomCheckResult {
    /// The key was certainly never added.
    No,
    /// The key may have been added.
    Maybe,
}

/// The digest cannot supply `index_bits * hasher_count` bits.
#[derive(PartialEq, Eq, Structural, Debug, Clone, Copy)]
pub struct CapacityError {
    pub index_bits: u32,
    pub hasher_count: usize,
}

/// Derives the `hasher_count` slot indices of `index_bits` bits each from a
/// 64-byte digest.
pub fn derive_indices(digest: Vec<u8>, index_bits: u32, hasher_count: usize) -> (r: Vec<usize>)
    requires
        digest@.len() == DIGEST_BYTES,
        index_bits * hasher_count <= DIGEST_BITS,
        pow2(index_bits as nat) <= usize::MAX + 1,
    ensures
        r@.len() == hasher_count,
        forall|i: int|
            0 <= i < hasher_count ==> r@[i] as nat == slot_indices(
                digest@,
                index_bits as nat,
                hasher_count as nat,
            )[i] && r@[i] < pow2(index_bits as nat),
{
    let ghost d = digest@;
    let mut cursor = DigestCursor::new(digest);
    let mut r: Vec<usize> = Vec::new();
    let mut i: usize = 0;
    while i < hasher_count
        invariant
            cursor.digest() == d,
            d.len() == DIGEST_BYTES,
            index_bits * hasher_count <= DIGEST_BITS,
            pow2(index_bits as nat) <= usize::MAX + 1,
            i <= hasher_count,
            cursor.position() == i * index_bits,
            r@.len() == i,
            forall|k: int|
                0 <= k < i ==> r@[k] as nat == slot_value(d, k * index_bits, index_bits as nat)
                    && r@[k] < pow2(index_bits as nat),
        decreases hasher_count - i,
    {
        proof {
            assert((i + 1) * index_bits <= index_bits * hasher_count) by (nonlinear_arith)
                requires
                    i + 1 <= hasher_count,
            ;
            assert((i + 1) * index_bits == i * index_bits + index_bits) by (nonlinear_arith);
            lemma_slot_value_bound(d, i * index_bits, index_bits as nat);
            assert(cursor.position() + index_bits <= 512);
            assert(d.len() * 8 == 512);
        }
        let v = cursor.read_bits(index_bits);
        r.push(v);
        i = i + 1;
    }
    r
}

/// A bloom filter over byte-string keys.
pub struct BloomFilter {
    bits: BitVec,
    hasher_count: usize,
    index_bits: u32,
}

impl BloomFilter {
    /// The bit array, in index order.
    pub closed spec fn bits(&self) -> Seq<bool> {
        bits_of(self.bits)
    }

    /// The number of slot indices per key.
    pub closed spec fn spec_hasher_count(&self) -> nat {
        self.hasher_count as nat
    }

    /// The number of digest bits per slot index.
    pub closed spec fn spec_index_bits(&self) -> nat {
        self.index_bits as nat
    }

    /// The filter's invariant: the bit array has `2^index_bits` bits, which
    /// can be addressed, and the digest supplies enough bits for every slot.
    pub open spec fn wf(&self) -> bool {
        &&& self.bits().len() == pow2(self.spec_index_bits())
        &&& pow2(self.spec_index_bits()) <= usize::MAX
        &&& self.spec_index_bits() * self.spec_hasher_count() <= DIGEST_BITS
    }

    /// The slot indices of `key` in this filter.
    pub open spec fn indices_of(&self, key: Seq<u8>) -> Seq<nat> {
        key_indices(key, self.spec_index_bits(), self.spec_hasher_count())
    }

    /// Makes an empty filter of `2^index_bits` bits with `hasher_count` slots
    /// per key, or fails when the digest has fewer than
    /// `index_bits * hasher_count` bits.
    pub fn build(index_bits: u32, hasher_count: usize) -> (r: Result<BloomFilter, CapacityError>)
        requires
            index_bits * hasher_count > DIGEST_BITS || pow2(index_bits as nat) <= usize::MAX,
        ensures
            r is Err <==> index_bits * hasher_count > DIGEST_BITS,
            r matches Err(e) ==> e.index_bits == index_bits && e.hasher_count == hasher_count,
            r matches Ok(f) ==> {
                &&& f.wf()
                &&& f.spec_index_bits() == index_bits
                &&& f.spec_hasher_count() == hasher_count
                &&& f.bits() == Seq::new(pow2(index_bits as nat), |i: int| false)
            },
    {
        proof {
            assert((index_bits as u128) * (hasher_count as u128) <= 0xffff_ffff_ffff_ffff_ffff_ffff_ffff)
                by (nonlinear_arith)
                requires
                    index_bits <= 0xffff_ffff,
                    hasher_count <= 0xffff_ffff_ffff_ffff,
            ;
        }
        if (index_bits as u128) * (hasher_count as u128) > DIGEST_BITS as u128 {
            return Err(CapacityError { index_bits, hasher_count });
        }
        let mut len: usize = 1;
        let mut i: u32 = 0;
        proof {
            lemma2_to64();
        }
        while i < index_bits
            invariant
                i <= index_bits,
                len == pow2(i as nat),
                pow2(index_bits as nat) <= usize::MAX,
            decreases index_bits - i,
        {
            proof {
                lemma_pow2_unfold((i + 1) as nat);
                if i + 1 < index_bits {
                    lemma_pow2_strictly_increases((i + 1) as nat, index_bits as nat);
                }
            }
            len = len * 2;
            i = i + 1;
        }
        let bits = bit_vec_from_elem(len, false);
        Ok(BloomFilter { bits, hasher_count, index_bits })
    }

    /// The slot indices of `key`.
    fn hash(&self, key: &[u8]) -> (r: Vec<usize>)
        requires
            self.wf(),
        ensures
            r@.len() == self.spec_hasher_count(),
            forall|i: int|
                0 <= i < r@.len() ==> r@[i] as nat == self.indices_of(key@)[i] && r@[i]
                    < self.bits().len(),
    {
        let digest = sha512(key);
        derive_indices(digest, self.index_bits, self.hasher_count)
    }

    /// Adds `key`: sets the bit at each of its slot indices.
    pub fn add(&mut self, key: &[u8])
        requires
            old(self).wf(),
        ensures
            final(self).wf(),
            final(self).spec_index_bits() == old(self).spec_index_bits(),
            final(self).spec_hasher_count() == old(self).spec_hasher_count(),
            final(self).bits() == spec_add(
                old(self).bits(),
                key@,
                old(self).spec_index_bits(),
                old(self).spec_hasher_count(),
            ),
    {
        let idx = self.hash(key);
        let ghost want = self.indices_of(key@);
        let ghost start = self.bits();
        let mut i: usize = 0;
        while i < idx.len()
            invariant
                self.wf(),
                self.spec_index_bits() == old(self).spec_index_bits(),
                self.spec_hasher_count() == old(self).spec_hasher_count(),
                start == old(self).bits(),
                want == old(self).indices_of(key@),
                idx@.len() == want.len(),
                forall|k: int|
                    0 <= k < idx@.len() ==> #[trigger] idx@[k] as nat == want[k] && idx@[k] < start.len(),
                i <= idx@.len(),
                self.bits() == set_prefix(start, want, i as int),
            decreases idx@.len() - i,
        {
            let ghost prev = self.bits();
            let pos = idx[i];
            assert(pos < start.len());
            assert(prev.len() == start.len());
            bit_vec_set(&mut self.bits, pos, true);
            proof {
                let next = set_prefix(start, want, i + 1);
                assert(want[i as int] == pos);
                assert forall|j: int| 0 <= j < start.len() implies self.bits()[j] == next[j] by {
                    if j == pos {
                        assert(0 <= i < i + 1 && want[i as int] == j);
                        assert(next[j]);
                    } else {
                        assert(self.bits()[j] == prev[j]);
                        if exists|k: int| 0 <= k < i + 1 && want[k] == j {
                            let k = choose|k: int| 0 <= k < i + 1 && want[k] == j;
                            assert(k < i);
                            assert(0 <= k < i && want[k] == j);
                        }
                    }
                }
                assert(self.bits() =~= next);
            }
            i = i + 1;
        }
    }

    /// Answers `Maybe` when the bit at each slot index of `key` is set, `No`
    /// otherwise.
    pub fn is_present(&self, key: &[u8]) -> (r: BloomCheckResult)
        requires
            self.wf(),
        ensures
            (r == BloomCheckResult::Maybe) == spec_present(
                self.bits(),
                key@,
                self.spec_index_bits(),
                self.spec_hasher_count(),
            ),
    {
        let idx = self.hash(key);
        let ghost want = self.indices_of(key@);
        let mut i: usize = 0;
        while i < idx.len()
            invariant
                self.wf(),
                want == self.indices_of(key@),
                idx@.len() == want.len(),
                forall|k: int|
                    0 <= k < idx@.len() ==> #[trigger] idx@[k] as nat == want[k] && idx@[k]
                        < self.bits().len(),
                i <= idx@.len(),
                forall|k: int|
                    0 <= k < i ==> want[k] < self.bits().len() && self.bits()[want[k] as int],
            decreases idx@.len() - i,
        {
            let pos = idx[i];
            assert(pos as nat == want[i as int] && pos < self.bits().len());
            match bit_vec_get(&self.bits, pos) {
                Some(true) => {},
                _ => {
                    assert(!self.bits()[want[i as int] as int]);
                    return BloomCheckResult::No;
                },
            }
            i = i + 1;
        }
        BloomCheckResult::Maybe
    }

    /// The bit array written out as `0` and `1`, each followed by a space.
    pub fn to_bit_string(&self) -> (r: String)
        ensures
            r@ == render_bits(self.bits()),
    {
        let n = bit_vec_len(&self.bits);
        let mut s = String::new();
        let mut i: usize = 0;
        while i < n
            invariant
                n == self.bits().len(),
                i <= n,
                s@ == render_bits(self.bits().take(i as int)),
            decreases n - i,
        {
            let bit = bit_vec_get(&self.bits, i);
            assert(self.bits().take(i + 1).drop_last() == self.bits().take(i as int));
            if bit == Some(true) {
                s.append("1 ");
            } else {
                s.append("0 ");
            }
            i = i + 1;
        }
        assert(self.bits().take(n as int) == self.bits());
        s
    }
}

} // verus!
