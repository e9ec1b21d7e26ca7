//! The SHA-512 digest of a key, as the bloom filter consumes it.
use sha2::Digest;
use vstd::prelude::*;

verus! {

/// Number of bytes in a SHA-512 digest.
pub const DIGEST_BYTES: usize = 64;

/// Number of bits in a SHA-512 digest.
pub const DIGEST_BITS: u32 = 512;

/// The SHA-512 digest of `data`.
pub uninterp spec fn sha512_of(data: Seq<u8>) -> Seq<u8>;

/// Relies on `sha2::Sha512::digest`: the result depends on the input bytes
/// alone, and holds the 64 bytes of the digest (its output size is `U64`).
#[verifier::external_body]
pub(crate) fn sha512(data: &[u8]) -> (r: Vec<u8>)
    ensures
        r@ == sha512_of(data@),
        r@.len() == DIGEST_BYTES,
{
    sha2::Sha512::digest(data).to_vec()
}

} // verus!
