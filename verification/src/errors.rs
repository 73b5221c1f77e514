//! The error taxonomy: provider failures, payload encryption and decryption
//! failures, and wire-format failures are kept apart so that callers can tell
//! a tampered record from an unreachable key service from a bad buffer.

use vstd::prelude::*;

verus! {

/// Why a key provider could not generate or unwrap a data key.
#[derive(Clone, Copy, Debug, PartialEq, Eq, Structural)]
pub enum ProviderError {
    /// The backend could not be reached, or gave up after transient failures.
    Unavailable,
    /// The backend refused the caller; never retried.
    NotAuthorized,
    /// The wrapped key or the backend's reply was not in the expected shape,
    /// or its authentication check failed.
    Malformed,
}

/// Why an encryption call failed.
#[derive(Clone, Copy, Debug, PartialEq, Eq, Structural)]
pub enum EncryptionError {
    /// The provider could not produce a data key.
    KeyGeneration(ProviderError),
    /// The payload is longer than the AEAD construction accepts.
    PayloadTooLarge,
}

/// Why a decryption call failed.
#[derive(Clone, Copy, Debug, PartialEq, Eq, Structural)]
pub enum DecryptionError {
    /// The data key was recovered but the ciphertext's authentication check
    /// failed: the record was tampered with or belongs to another key.
    AuthenticationFailed,
    /// The wrapped data key could not be unwrapped.
    KeyUnavailable(ProviderError),
}

/// Why a serialized record could not be read back.
#[derive(Clone, Copy, Debug, PartialEq, Eq, Structural)]
pub enum FormatError {
    /// The leading version byte is not one this library writes.
    UnknownVersion,
    /// A length prefix points past the end of the buffer.
    Truncated,
    /// Bytes remain after every field was consumed.
    TrailingData,
    /// The record cannot be serialized: a nonce of the wrong size, or a
    /// wrapped key too long for its length prefix.
    Unencodable,
}

} // verus!
