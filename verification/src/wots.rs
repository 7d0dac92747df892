//! Key generation, signing and verification on byte buffers.

use vstd::prelude::*;
use crate::engine::{
    chain_signature, core_public_key, core_sign, core_verify, derived_public_key,
    signature_accepted,
};
use crate::error::{InputField, WotsError};
use crate::params::{CHAIN_LEN, HASH_LEN, MESSAGE_LEN, PUBLIC_KEY_SIZE, SIGNATURE_SIZE};
use crate::public_key::PublicKey;
use crate::signature::{
    bytes_to_segments, join_segments, lemma_segments_view, lemma_split_join, segments_to_bytes,
    split_segments,
};

verus! {

/// The public key for a private key: an error for a key of the wrong length,
/// else the derived key in its encoding.
pub open spec fn public_key_model(private_key: Seq<u8>) -> Result<Seq<u8>, WotsError> {
    if private_key.len() != HASH_LEN {
        Err(WotsError::InvalidInputLength { field: InputField::PrivateKey, expected: HASH_LEN })
    } else {
        Ok(derived_public_key(private_key))
    }
}

/// The key pair for a seed: an error for a seed of the wrong length, else the
/// public key derived from the seed, and the seed itself as the private key.
pub open spec fn key_pair_model(private_seed: Seq<u8>) -> Result<(Seq<u8>, Seq<u8>), WotsError> {
    if private_seed.len() != HASH_LEN {
        Err(WotsError::InvalidInputLength { field: InputField::PrivateSeed, expected: HASH_LEN })
    } else {
        Ok((derived_public_key(private_seed), private_seed))
    }
}

/// The signature bytes for a private key and a message. The key is checked
/// before the message.
pub open spec fn sign_model(private_key: Seq<u8>, message: Seq<u8>) -> Result<Seq<u8>, WotsError> {
    if private_key.len() != HASH_LEN {
        Err(WotsError::InvalidInputLength { field: InputField::PrivateKey, expected: HASH_LEN })
    } else if message.len() != MESSAGE_LEN {
        Err(WotsError::InvalidInputLength { field: InputField::Message, expected: MESSAGE_LEN })
    } else {
        Ok(join_segments(chain_signature(private_key, message)))
    }
}

/// The verdict on a public key, a message and a signature, all as untrusted
/// buffers. A key or a signature of the wrong length is a failed
/// verification; a message of the wrong length is an error. The key is
/// checked first, then the message, then the signature.
pub open spec fn verify_model(public_key: Seq<u8>, message: Seq<u8>, signature: Seq<u8>) -> Result<
    bool,
    WotsError,
> {
    if public_key.len() != PUBLIC_KEY_SIZE {
        Ok(false)
    } else if message.len() != MESSAGE_LEN {
        Err(WotsError::InvalidInputLength { field: InputField::Message, expected: MESSAGE_LEN })
    } else if signature.len() != SIGNATURE_SIZE {
        Ok(false)
    } else {
        Ok(signature_accepted(public_key, message, split_segments(signature)))
    }
}

/// Copies a buffer of exactly one hash width into an array.
fn to_hash_array(bytes: &[u8]) -> (out: [u8; 32])
    requires
        bytes@.len() == HASH_LEN,
    ensures
        out@ == bytes@,
{
    let mut out = [0u8; 32];
    let mut i: usize = 0;
    while i < HASH_LEN
        invariant
            i <= HASH_LEN,
            bytes@.len() == HASH_LEN,
            forall|k: int| 0 <= k < i ==> out@[k] == bytes@[k],
        decreases HASH_LEN - i,
    {
        out[i] = bytes[i];
        i += 1;
    }
    assert(out@ =~= bytes@);
    out
}

/// WOTS+ with Keccak-256 as its hash function.
///
/// A value of this type holds no state: every operation is a function of its
/// arguments. A private key must sign one message only; nothing here can
/// enforce that.
#[derive(Clone, Copy, Debug)]
pub struct WotsPlusKeccak256 {}

impl WotsPlusKeccak256 {
    pub fn new() -> (w: Self) {
        WotsPlusKeccak256 {  }
    }

    /// Bytes in a hash value, a private seed and a private key.
    pub fn hash_len() -> (n: usize)
        ensures
            n == HASH_LEN,
    {
        HASH_LEN
    }

    /// Bytes in a message.
    pub fn message_len() -> (n: usize)
        ensures
            n == MESSAGE_LEN,
    {
        MESSAGE_LEN
    }

    /// Number of values in one hash chain.
    pub fn chain_len() -> (n: usize)
        ensures
            n == CHAIN_LEN,
    {
        CHAIN_LEN
    }

    /// Bytes in a signature.
    pub fn signature_size() -> (n: usize)
        ensures
            n == SIGNATURE_SIZE,
    {
        SIGNATURE_SIZE
    }

    /// Makes a key pair from a seed of `HASH_LEN` bytes. The private key is
    /// the seed.
    pub fn generate_key_pair(&self, private_seed: &[u8]) -> (r: Result<
        (PublicKey, [u8; 32]),
        WotsError,
    >)
        ensures
            r is Ok <==> private_seed@.len() == HASH_LEN,
            r matches Ok(pair) ==> key_pair_model(private_seed@) == Ok::<
                (Seq<u8>, Seq<u8>),
                WotsError,
            >((pair.0@, pair.1@)),
            r matches Err(e) ==> key_pair_model(private_seed@) == Err::<
                (Seq<u8>, Seq<u8>),
                WotsError,
            >(e),
    {
        if private_seed.len() != HASH_LEN {
            return Err(
                WotsError::InvalidInputLength { field: InputField::PrivateSeed, expected: HASH_LEN },
            );
        }
        let private_key = to_hash_array(private_seed);
        let public_key = core_public_key(&private_key);
        Ok((public_key, private_key))
    }

    /// Derives the public key of a private key of `HASH_LEN` bytes.
    pub fn get_public_key(&self, private_key: &[u8]) -> (r: Result<PublicKey, WotsError>)
        ensures
            r is Ok <==> private_key@.len() == HASH_LEN,
            r matches Ok(pk) ==> public_key_model(private_key@) == Ok::<Seq<u8>, WotsError>(pk@),
            r matches Err(e) ==> public_key_model(private_key@) == Err::<Seq<u8>, WotsError>(e),
    {
        if private_key.len() != HASH_LEN {
            return Err(
                WotsError::InvalidInputLength { field: InputField::PrivateKey, expected: HASH_LEN },
            );
        }
        let sk = to_hash_array(private_key);
        Ok(core_public_key(&sk))
    }

    /// Signs a message of `MESSAGE_LEN` bytes with a private key of `HASH_LEN`
    /// bytes. The signature has `SIGNATURE_SIZE` bytes.
    pub fn sign(&self, private_key: &[u8], message: &[u8]) -> (r: Result<Vec<u8>, WotsError>)
        ensures
            r is Ok <==> private_key@.len() == HASH_LEN && message@.len() == MESSAGE_LEN,
            r matches Ok(sig) ==> sig@.len() == SIGNATURE_SIZE,
            r matches Ok(sig) ==> split_segments(sig@) == chain_signature(private_key@, message@),
            r matches Ok(sig) ==> sign_model(private_key@, message@) == Ok::<Seq<u8>, WotsError>(
                sig@,
            ),
            r matches Err(e) ==> sign_model(private_key@, message@) == Err::<Seq<u8>, WotsError>(
                e,
            ),
    {
        if private_key.len() != HASH_LEN {
            return Err(
                WotsError::InvalidInputLength { field: InputField::PrivateKey, expected: HASH_LEN },
            );
        }
        if message.len() != MESSAGE_LEN {
            return Err(
                WotsError::InvalidInputLength { field: InputField::Message, expected: MESSAGE_LEN },
            );
        }
        let sk = to_hash_array(private_key);
        let segments = core_sign(&sk, message);
        let signature = segments_to_bytes(&segments);
        proof {
            lemma_segments_view(segments);
            lemma_split_join(segments.deep_view());
        }
        Ok(signature)
    }

    /// Checks a signature. `Ok(true)` means that the signature is valid for
    /// the message under the public key; a public key or a signature of the
    /// wrong length is never valid.
    pub fn verify(&self, public_key: &[u8], message: &[u8], signature: &[u8]) -> (r: Result<
        bool,
        WotsError,
    >)
        ensures
            r == verify_model(public_key@, message@, signature@),
            public_key@.len() != PUBLIC_KEY_SIZE ==> r == Ok::<bool, WotsError>(false),
            r is Err <==> public_key@.len() == PUBLIC_KEY_SIZE && message@.len() != MESSAGE_LEN,
    {
        let pk = match PublicKey::from_bytes(public_key) {
            Some(pk) => pk,
            None => {
                return Ok(false);
            },
        };
        if message.len() != MESSAGE_LEN {
            return Err(
                WotsError::InvalidInputLength { field: InputField::Message, expected: MESSAGE_LEN },
            );
        }
        let segments = match bytes_to_segments(signature) {
            Some(segments) => segments,
            None => {
                return Ok(false);
            },
        };
        Ok(core_verify(&pk, message, &segments))
    }
}

} // verus!
