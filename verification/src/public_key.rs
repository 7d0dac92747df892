//! The public key and its fixed 64-byte encoding.

use vstd::prelude::*;
use crate::params::{HASH_LEN, PUBLIC_KEY_SIZE};

verus! {

/// A WOTS+ public key.
///
/// `public_seed` is the value from which signer and verifier derive the
/// per-iteration masks of the chains; `public_key_hash` is the hash of all
/// chain endpoints, concatenated in chain order. The endpoints themselves are
/// never stored.
#[derive(Clone, Copy, Debug)]
pub struct PublicKey {
    pub public_seed: [u8; 32],
    pub public_key_hash: [u8; 32],
}

impl View for PublicKey {
    type V = Seq<u8>;

    /// The encoding: the seed in bytes `[0, 32)`, the hash in bytes `[32, 64)`.
    open spec fn view(&self) -> Seq<u8> {
        self.public_seed@ + self.public_key_hash@
    }
}

impl PublicKey {
    /// Reads a key from an untrusted buffer. A buffer of any length but
    /// `PUBLIC_KEY_SIZE` is refused; one of that length always decodes.
    pub fn from_bytes(bytes: &[u8]) -> (r: Option<PublicKey>)
        ensures
            r is Some <==> bytes@.len() == PUBLIC_KEY_SIZE,
            r matches Some(pk) ==> pk@ == bytes@,
    {
        if bytes.len() != PUBLIC_KEY_SIZE {
            return None;
        }
        let mut public_seed = [0u8; 32];
        let mut public_key_hash = [0u8; 32];
        let mut i: usize = 0;
        while i < HASH_LEN
            invariant
                i <= HASH_LEN,
                bytes@.len() == PUBLIC_KEY_SIZE,
                forall|k: int| 0 <= k < i ==> public_seed@[k] == bytes@[k],
                forall|k: int| 0 <= k < i ==> public_key_hash@[k] == bytes@[HASH_LEN + k],
            decreases HASH_LEN - i,
        {
            public_seed[i] = bytes[i];
            public_key_hash[i] = bytes[HASH_LEN + i];
            i += 1;
        }
        let pk = PublicKey { public_seed, public_key_hash };
        assert(pk@ =~= bytes@);
        Some(pk)
    }

    /// Writes the key as `PUBLIC_KEY_SIZE` bytes.
    pub fn to_bytes(&self) -> (out: [u8; 64])
        ensures
            out@ == self@,
    {
        let mut out = [0u8; 64];
        let mut i: usize = 0;
        while i < HASH_LEN
            invariant
                i <= HASH_LEN,
                forall|k: int| 0 <= k < i ==> out@[k] == self.public_seed@[k],
                forall|k: int| 0 <= k < i ==> out@[HASH_LEN + k] == self.public_key_hash@[k],
            decreases HASH_LEN - i,
        {
            out[i] = self.public_seed[i];
            out[HASH_LEN + i] = self.public_key_hash[i];
            i += 1;
        }
        assert(out@ =~= self@);
        out
    }
}

/// Every key encodes to exactly `PUBLIC_KEY_SIZE` bytes, and two keys with the
/// same encoding are the same key.
pub proof fn lemma_encoding_is_injective(a: PublicKey, b: PublicKey)
    ensures
        a@.len() == PUBLIC_KEY_SIZE,
        a@ == b@ ==> a == b,
{
    if a@ == b@ {
        assert(a.public_seed@ =~= a@.subrange(0, 32));
        assert(b.public_seed@ =~= b@.subrange(0, 32));
        assert(a.public_key_hash@ =~= a@.subrange(32, 64));
        assert(b.public_key_hash@ =~= b@.subrange(32, 64));
        assert(a.public_seed =~= b.public_seed);
        assert(a.public_key_hash =~= b.public_key_hash);
    }
}

} // verus!
