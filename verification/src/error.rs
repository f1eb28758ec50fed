//! Error taxonomy for key normalization, derivation and lookups.

use vstd::prelude::*;

verus! {

/// Errors that can abort a run: an unrecognized key prefix, a failed
/// base58Check decode, a payload whose field layout is wrong, a failed
/// child-key derivation, or an exhausted lookup retry budget.
#[derive(Clone, Copy, Debug, PartialEq, Eq, Structural)]
pub enum CustomError {
    /// The input string starts with none of the supported prefixes.
    UnsupportedFormat,
    /// base58Check decoding failed (bad character or checksum mismatch).
    DecodeError,
    /// The decoded payload is not a well-formed extended-key serialization.
    MalformedKey,
    /// Child-key computation failed or the index is out of the
    /// non-hardened range.
    DerivationError,
    /// Every lookup attempt failed with a transport error.
    MaxRetriesReached,
}

/// A single failed lookup attempt: either the transport failed (retryable)
/// or the response did not parse as the expected structure (not retryable).
#[derive(Clone, Copy, Debug, PartialEq, Eq, Structural)]
pub enum LookupError {
    Transport,
    Malformed,
}

/// How a whole lookup ends when it does not succeed: a malformed
/// response fails at once and is never retried, while exhausting every
/// attempt on transport failures yields `MaxRetriesReached`.
#[derive(Clone, Copy, Debug, PartialEq, Eq, Structural)]
pub enum LookupFailure {
    Malformed,
    MaxRetriesReached,
}

/// The description each error variant carries.
pub open spec fn spec_message(e: CustomError) -> Seq<char> {
    match e {
        CustomError::UnsupportedFormat => "Unsupported pubkey format"@,
        CustomError::DecodeError => "base58Check decode failed"@,
        CustomError::MalformedKey => "Malformed extended key payload"@,
        CustomError::DerivationError => "Child key derivation failed"@,
        CustomError::MaxRetriesReached => "Max retries reached"@,
    }
}

impl CustomError {
    /// A human-readable description, for display outside the library.
    pub fn message(&self) -> (r: String)
        ensures
            r@ == spec_message(*self),
    {
        match self {
            CustomError::UnsupportedFormat => "Unsupported pubkey format".to_owned(),
            CustomError::DecodeError => "base58Check decode failed".to_owned(),
            CustomError::MalformedKey => "Malformed extended key payload".to_owned(),
            CustomError::DerivationError => "Child key derivation failed".to_owned(),
            CustomError::MaxRetriesReached => "Max retries reached".to_owned(),
        }
    }
}

} // verus!
