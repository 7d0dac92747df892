//! WOTS+ one-time signatures over Keccak-256.
//!
//! The chain computations are those of the `hashsigs-rs` crate, bound to the
//! Keccak-256 of `tiny-keccak`. This library owns everything around them: the
//! parameter set, the validation of every input length, the byte layout of
//! public keys and signatures, and the rules by which malformed input is
//! either rejected with an error or reported as a failed verification.

pub mod params;
pub mod error;
pub mod hash;
pub mod public_key;
pub mod signature;
pub mod engine;
pub mod wots;
pub mod laws;
