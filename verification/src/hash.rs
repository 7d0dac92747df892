//! The hash function that the scheme is instantiated with.

use vstd::prelude::*;

verus! {

/// The Keccak-256 digest of `data`, as `tiny_keccak` computes it.
pub uninterp spec fn keccak256(data: Seq<u8>) -> Seq<u8>;

/// One-shot Keccak-256: `tiny_keccak::Keccak::v256`, then `update` with all of
/// `data`, then `finalize` into 32 bytes.
///
/// Trusted: the digest depends on the bytes of `data` alone. Nothing here
/// says what the digest is.
#[verifier::external_body]
pub(crate) fn keccak256_hash(data: &[u8]) -> (digest: [u8; 32])
    ensures
        digest@ == keccak256(data@),
{
    let mut hasher = tiny_keccak::Keccak::v256();
    let mut out = [0u8; 32];
    tiny_keccak::Hasher::update(&mut hasher, data);
    tiny_keccak::Hasher::finalize(hasher, &mut out);
    out
}

} // verus!
