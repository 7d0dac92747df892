//! The parameter set: hash width, Winternitz digit width, and every size
//! that follows from the two.

use vstd::prelude::*;
use vstd::arithmetic::power::pow;

verus! {

/// Bytes in one hash value (the security parameter `n`).
pub const HASH_LEN: usize = 32;

/// Bytes in a message. The scheme signs a digest, so this is the hash width.
pub const MESSAGE_LEN: usize = 32;

/// Bits encoded by one Winternitz digit.
pub const DIGIT_BITS: usize = 4;

/// Number of values in one hash chain (the Winternitz parameter `w`).
pub const CHAIN_LEN: usize = 16;

/// Number of chains that carry message digits (`len_1`).
pub const NUM_MESSAGE_CHUNKS: usize = 64;

/// Largest value the checksum can take: every message digit at zero.
pub const CHECKSUM_MAX: usize = 960;

/// Number of chains that carry checksum digits (`len_2`).
pub const NUM_CHECKSUM_CHUNKS: usize = 3;

/// Number of chains, and so of segments in a signature.
pub const NUM_SIGNATURE_CHUNKS: usize = 67;

/// Bytes in a signature: one hash value per chain.
pub const SIGNATURE_SIZE: usize = 2144;

/// Bytes in a public key: the public seed, then the commitment to all chain
/// endpoints, one hash value each.
pub const PUBLIC_KEY_SIZE: usize = 64;

/// Number of base-2^`digit_bits` digits needed for a value of `hash_len`
/// bytes: `hash_len * 8 / digit_bits`, rounded up.
pub open spec fn message_digit_count(hash_len: nat, digit_bits: nat) -> nat
    recommends
        digit_bits > 0,
{
    ((hash_len * 8 + digit_bits - 1) / (digit_bits as int)) as nat
}

/// The checksum when all `digit_count` digits are zero, which is its maximum.
pub open spec fn checksum_max(digit_count: nat, chain_len: nat) -> nat
    recommends
        chain_len > 0,
{
    (digit_count * (chain_len - 1)) as nat
}

/// `count` is the least number of base-`base` digits in which every value up
/// to `max` can be written.
pub open spec fn is_digit_count(count: nat, max: nat, base: nat) -> bool {
    &&& count >= 1
    &&& max < pow(base as int, count)
    &&& count > 1 ==> pow(base as int, (count - 1) as nat) <= max
}

/// The constants of this module are the ones that the hash width and the
/// digit width determine.
pub proof fn lemma_parameter_set()
    ensures
        MESSAGE_LEN == HASH_LEN,
        CHAIN_LEN == pow(2, DIGIT_BITS as nat),
        NUM_MESSAGE_CHUNKS == message_digit_count(HASH_LEN as nat, DIGIT_BITS as nat),
        CHECKSUM_MAX == checksum_max(NUM_MESSAGE_CHUNKS as nat, CHAIN_LEN as nat),
        is_digit_count(NUM_CHECKSUM_CHUNKS as nat, CHECKSUM_MAX as nat, CHAIN_LEN as nat),
        NUM_SIGNATURE_CHUNKS == NUM_MESSAGE_CHUNKS + NUM_CHECKSUM_CHUNKS,
        SIGNATURE_SIZE == NUM_SIGNATURE_CHUNKS * HASH_LEN,
        PUBLIC_KEY_SIZE == 2 * HASH_LEN,
{
    reveal_with_fuel(pow, 5);
}

} // verus!
