//! What holds of every filter: no false negatives, idempotent insertion and
//! deterministic queries.
use crate::bloom::{key_indices, set_prefix, spec_add, spec_add_all, spec_present};
use crate::cursor::lemma_slot_value_bound;
use vstd::arithmetic::power2::*;
use vstd::prelude::*;

verus! {

/// Every slot index of a key lies below `2^index_bits`.
proof fn lemma_indices_in_range(key: Seq<u8>, index_bits: nat, hasher_count: nat)
    ensures
        forall|k: int|
            0 <= k < hasher_count ==> #[trigger] key_indices(key, index_bits, hasher_count)[k]
                < pow2(index_bits),
{
    assert forall|k: int| 0 <= k < hasher_count implies #[trigger] key_indices(
        key,
        index_bits,
        hasher_count,
    )[k] < pow2(index_bits) by {
        lemma_slot_value_bound(crate::digest::sha512_of(key), k * index_bits, index_bits);
    }
}

/// Adding a key sets bits and clears none; the length stays the same.
proof fn lemma_add_keeps_bits(bits: Seq<bool>, key: Seq<u8>, index_bits: nat, hasher_count: nat)
    ensures
        spec_add(bits, key, index_bits, hasher_count).len() == bits.len(),
        forall|j: int|
            0 <= j < bits.len() && bits[j] ==> #[trigger] spec_add(
                bits,
                key,
                index_bits,
                hasher_count,
            )[j],
{
}

/// Adding keys, one after another, clears no bit; the length stays the same.
proof fn lemma_add_all_keeps_bits(
    bits: Seq<bool>,
    keys: Seq<Seq<u8>>,
    index_bits: nat,
    hasher_count: nat,
)
    ensures
        spec_add_all(bits, keys, index_bits, hasher_count).len() == bits.len(),
        forall|j: int|
            0 <= j < bits.len() && bits[j] ==> #[trigger] spec_add_all(
                bits,
                keys,
                index_bits,
                hasher_count,
            )[j],
    decreases keys.len(),
{
    if keys.len() > 0 {
        let next = spec_add(bits, keys[0], index_bits, hasher_count);
        lemma_add_keeps_bits(bits, keys[0], index_bits, hasher_count);
        lemma_add_all_keeps_bits(next, keys.drop_first(), index_bits, hasher_count);
    }
}

/// Right after a key is added, a query for it answers "maybe present".
pub proof fn lemma_added_key_present(
    bits: Seq<bool>,
    key: Seq<u8>,
    index_bits: nat,
    hasher_count: nat,
)
    requires
        bits.len() == pow2(index_bits),
    ensures
        spec_present(spec_add(bits, key, index_bits, hasher_count), key, index_bits, hasher_count),
{
    let idx = key_indices(key, index_bits, hasher_count);
    let after = spec_add(bits, key, index_bits, hasher_count);
    lemma_indices_in_range(key, index_bits, hasher_count);
    assert forall|k: int| 0 <= k < idx.len() implies idx[k] < after.len() && after[idx[k] as int] by {
        assert(idx[k] < pow2(index_bits));
        let j = idx[k] as int;
        assert(0 <= k < idx.len() && idx[k] == j);
        assert(set_prefix(bits, idx, idx.len() as int)[j]);
    }
}

/// No false negatives: once a key is added, a query for it answers "maybe
/// present", whatever keys were added before it (they made `bits`) and
/// whatever keys are added after it.
pub proof fn lemma_no_false_negatives(
    bits: Seq<bool>,
    key: Seq<u8>,
    later: Seq<Seq<u8>>,
    index_bits: nat,
    hasher_count: nat,
)
    requires
        bits.len() == pow2(index_bits),
    ensures
        spec_present(
            spec_add_all(spec_add(bits, key, index_bits, hasher_count), later, index_bits, hasher_count),
            key,
            index_bits,
            hasher_count,
        ),
{
    let after = spec_add(bits, key, index_bits, hasher_count);
    let last = spec_add_all(after, later, index_bits, hasher_count);
    lemma_added_key_present(bits, key, index_bits, hasher_count);
    lemma_add_keeps_bits(bits, key, index_bits, hasher_count);
    lemma_add_all_keeps_bits(after, later, index_bits, hasher_count);
    let idx = key_indices(key, index_bits, hasher_count);
    assert forall|k: int| 0 <= k < idx.len() implies idx[k] < last.len() && last[idx[k] as int] by {
        assert(after[idx[k] as int]);
    }
}

/// Adding a key twice leaves the same bit array as adding it once.
pub proof fn lemma_add_idempotent(bits: Seq<bool>, key: Seq<u8>, index_bits: nat, hasher_count: nat)
    ensures
        spec_add(spec_add(bits, key, index_bits, hasher_count), key, index_bits, hasher_count)
            == spec_add(bits, key, index_bits, hasher_count),
{
    let once = spec_add(bits, key, index_bits, hasher_count);
    let twice = spec_add(once, key, index_bits, hasher_count);
    assert(twice =~= once);
}

/// A query depends on the bit array and the key alone: with no insertion in
/// between, two queries for the same key give the same answer.
pub proof fn lemma_query_deterministic(
    before: Seq<bool>,
    after: Seq<bool>,
    key: Seq<u8>,
    index_bits: nat,
    hasher_count: nat,
)
    requires
        before == after,
    ensures
        spec_present(before, key, index_bits, hasher_count) == spec_present(
            after,
            key,
            index_bits,
            hasher_count,
        ),
{
}

} // verus!
