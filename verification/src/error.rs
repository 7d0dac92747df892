//! The one error of the library: an input buffer of the wrong length.
//!
//! A signature that does not verify is not an error; `verify` reports it as
//! `Ok(false)`.

use vstd::prelude::*;

verus! {

/// The input buffers whose length is the caller's contract.
#[derive(Clone, Copy, Debug, PartialEq, Eq, Structural)]
pub enum InputField {
    PrivateSeed,
    PrivateKey,
    Message,
}

#[derive(Clone, Copy, Debug, PartialEq, Eq, Structural)]
pub enum WotsError {
    /// `field` did not hold exactly `expected` bytes.
    InvalidInputLength { field: InputField, expected: usize },
}

impl InputField {
    /// The name under which callers know the buffer.
    pub fn name(&self) -> (s: &'static str)
        ensures
            *self == InputField::PrivateSeed ==> s@ == "private_seed"@,
            *self == InputField::PrivateKey ==> s@ == "private_key"@,
            *self == InputField::Message ==> s@ == "message"@,
    {
        match self {
            InputField::PrivateSeed => "private_seed",
            InputField::PrivateKey => "private_key",
            InputField::Message => "message",
        }
    }
}

impl WotsError {
    /// The buffer that was rejected.
    pub fn field(&self) -> (f: InputField)
        ensures
            f == self->field,
    {
        match self {
            WotsError::InvalidInputLength { field, .. } => *field,
        }
    }

    /// The length that the rejected buffer should have had.
    pub fn expected_len(&self) -> (n: usize)
        ensures
            n == self->expected,
    {
        match self {
            WotsError::InvalidInputLength { expected, .. } => *expected,
        }
    }
}

} // verus!
