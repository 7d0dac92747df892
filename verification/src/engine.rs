//! The three chain computations, as `hashsigs_rs` performs them with
//! Keccak-256 for its hash function.
//!
//! Nothing in this module is proved. Each function makes one call into
//! `hashsigs_rs` and its contract gives the result a name; what the names
//! stand for is the business of that crate.

use vstd::prelude::*;
use crate::hash::keccak256_hash;
use crate::params::{MESSAGE_LEN, NUM_SIGNATURE_CHUNKS};
use crate::public_key::PublicKey;

verus! {

/// The encoded public key that belongs to `private_key`: what
/// `hashsigs_rs::WOTSPlus::get_public_key` returns, seed first.
pub uninterp spec fn derived_public_key(private_key: Seq<u8>) -> Seq<u8>;

/// The segments that `hashsigs_rs::WOTSPlus::sign` returns for `private_key`
/// and `message`, in chain order.
pub uninterp spec fn chain_signature(private_key: Seq<u8>, message: Seq<u8>) -> Seq<Seq<u8>>;

/// Whether `hashsigs_rs::WOTSPlus::verify` accepts `segments` as a signature
/// of `message` under the encoded key `public_key`.
pub uninterp spec fn signature_accepted(
    public_key: Seq<u8>,
    message: Seq<u8>,
    segments: Seq<Seq<u8>>,
) -> bool;

/// `hashsigs_rs::WOTSPlus::get_public_key` on an instance made with
/// Keccak-256.
///
/// Trusted: the key depends on the private key alone. The outside function
/// has no failing input.
#[verifier::external_body]
pub(crate) fn core_public_key(private_key: &[u8; 32]) -> (public_key: PublicKey)
    ensures
        public_key@ == derived_public_key(private_key@),
{
    let pk = hashsigs_rs::WOTSPlus::new(keccak256_hash).get_public_key(private_key);
    PublicKey { public_seed: pk.public_seed, public_key_hash: pk.public_key_hash }
}

/// `hashsigs_rs::WOTSPlus::sign` on an instance made with Keccak-256.
///
/// Trusted: the segments depend on the private key and the message alone,
/// and there is one per chain. The outside function panics on a message of
/// any length but `MESSAGE_LEN`, which the precondition leaves out.
#[verifier::external_body]
pub(crate) fn core_sign(private_key: &[u8; 32], message: &[u8]) -> (segments: Vec<[u8; 32]>)
    requires
        message@.len() == MESSAGE_LEN,
    ensures
        segments.deep_view() == chain_signature(private_key@, message@),
        segments@.len() == NUM_SIGNATURE_CHUNKS,
{
    hashsigs_rs::WOTSPlus::new(keccak256_hash).sign(private_key, message)
}

/// `hashsigs_rs::WOTSPlus::verify` on an instance made with Keccak-256.
///
/// Trusted: the verdict depends on the key, the message and the segments
/// alone. The outside function answers `false` for a message or a segment
/// list of the wrong length and has no failing input.
#[verifier::external_body]
pub(crate) fn core_verify(public_key: &PublicKey, message: &[u8], segments: &Vec<[u8; 32]>) -> (ok:
    bool)
    ensures
        ok == signature_accepted(public_key@, message@, segments.deep_view()),
{
    let pk = hashsigs_rs::PublicKey {
        public_seed: public_key.public_seed,
        public_key_hash: public_key.public_key_hash,
    };
    hashsigs_rs::WOTSPlus::new(keccak256_hash).verify(&pk, message, segments)
}

} // verus!
