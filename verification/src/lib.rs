//! Envelope encryption.
//!
//! Every payload is sealed under a freshly generated data key, and that data
//! key is itself wrapped by a master key held by a pluggable provider: a local
//! 128-bit key, or a remote key-management service driven by a host program.
//! A byte-budgeted cache can wrap any provider to amortize unwrap calls, and
//! encrypted records have a compact, version-tagged wire form.

pub mod aead;
pub mod cache;
pub mod cipher;
pub mod codec;
pub mod errors;
pub mod kms;
pub mod local;
pub mod provider;
pub mod record;
