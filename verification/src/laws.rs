//! What holds of the operations taken together.
//!
//! The statements are over the models of `wots`, which are exactly what the
//! operations return.

use vstd::prelude::*;
use crate::engine::signature_accepted;
use crate::error::{InputField, WotsError};
use crate::params::{HASH_LEN, MESSAGE_LEN, NUM_SIGNATURE_CHUNKS, PUBLIC_KEY_SIZE, SIGNATURE_SIZE};
use crate::signature::{is_segment_list, join_segments, lemma_split_join};
use crate::wots::{key_pair_model, public_key_model, sign_model, verify_model};

verus! {

/// Signing is a function of the key and the message: equal inputs give equal
/// results, byte for byte, errors included. `sign` returns `sign_model` of
/// its arguments, so this holds of any two calls of it.
pub proof fn lemma_sign_is_deterministic(
    private_key_a: Seq<u8>,
    message_a: Seq<u8>,
    private_key_b: Seq<u8>,
    message_b: Seq<u8>,
)
    requires
        private_key_a == private_key_b,
        message_a == message_b,
    ensures
        sign_model(private_key_a, message_a) == sign_model(private_key_b, message_b),
{
}

/// Deriving the public key is a function of the private key. `get_public_key`
/// returns `public_key_model` of its argument, so this holds of any two calls
/// of it.
pub proof fn lemma_public_key_is_deterministic(private_key_a: Seq<u8>, private_key_b: Seq<u8>)
    requires
        private_key_a == private_key_b,
    ensures
        public_key_model(private_key_a) == public_key_model(private_key_b),
{
}

/// The public half of a generated pair is the public key of its private
/// half, and the private half is the seed.
pub proof fn lemma_key_pair_agrees_with_public_key(private_seed: Seq<u8>)
    requires
        private_seed.len() == HASH_LEN,
    ensures
        key_pair_model(private_seed) matches Ok(pair) && pair.1 == private_seed
            && public_key_model(pair.1) == Ok::<Seq<u8>, WotsError>(pair.0),
{
}

/// A seed or a private key of the wrong length is rejected with an error that
/// names the buffer and the length it should have had.
pub proof fn lemma_wrong_key_length_is_rejected(key: Seq<u8>, message: Seq<u8>)
    requires
        key.len() != HASH_LEN,
    ensures
        key_pair_model(key) == Err::<(Seq<u8>, Seq<u8>), WotsError>(
            WotsError::InvalidInputLength { field: InputField::PrivateSeed, expected: HASH_LEN },
        ),
        public_key_model(key) == Err::<Seq<u8>, WotsError>(
            WotsError::InvalidInputLength { field: InputField::PrivateKey, expected: HASH_LEN },
        ),
        sign_model(key, message) == Err::<Seq<u8>, WotsError>(
            WotsError::InvalidInputLength { field: InputField::PrivateKey, expected: HASH_LEN },
        ),
{
}

/// With a private key of the right length, a message of the wrong length is
/// rejected by signing; with a public key of the right length, by verifying.
pub proof fn lemma_wrong_message_length_is_rejected(
    private_key: Seq<u8>,
    public_key: Seq<u8>,
    message: Seq<u8>,
    signature: Seq<u8>,
)
    requires
        private_key.len() == HASH_LEN,
        public_key.len() == PUBLIC_KEY_SIZE,
        message.len() != MESSAGE_LEN,
    ensures
        sign_model(private_key, message) == Err::<Seq<u8>, WotsError>(
            WotsError::InvalidInputLength { field: InputField::Message, expected: MESSAGE_LEN },
        ),
        verify_model(public_key, message, signature) == Err::<bool, WotsError>(
            WotsError::InvalidInputLength { field: InputField::Message, expected: MESSAGE_LEN },
        ),
{
}

/// A public key of the wrong length never verifies and never raises an
/// error, whatever the message and the signature are. A signature of the
/// wrong length never verifies.
pub proof fn lemma_malformed_input_fails_verification(
    public_key: Seq<u8>,
    message: Seq<u8>,
    signature: Seq<u8>,
)
    ensures
        public_key.len() != PUBLIC_KEY_SIZE ==> verify_model(public_key, message, signature)
            == Ok::<bool, WotsError>(false),
        signature.len() != SIGNATURE_SIZE ==> verify_model(public_key, message, signature)
            != Ok::<bool, WotsError>(true),
{
}

/// The byte layout loses nothing between signer and verifier: on the bytes
/// that joining produces, verification is the outside verifier's verdict on
/// the very segments that were joined.
pub proof fn lemma_verify_reads_the_joined_segments(
    public_key: Seq<u8>,
    message: Seq<u8>,
    segments: Seq<Seq<u8>>,
)
    requires
        public_key.len() == PUBLIC_KEY_SIZE,
        message.len() == MESSAGE_LEN,
        segments.len() == NUM_SIGNATURE_CHUNKS,
        is_segment_list(segments),
    ensures
        verify_model(public_key, message, join_segments(segments)) == Ok::<bool, WotsError>(
            signature_accepted(public_key, message, segments),
        ),
{
    lemma_split_join(segments);
}

} // verus!
