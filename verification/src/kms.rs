//! The decision half of the remote key-management provider. The network
//! calls themselves (generate-data-key, decrypt) are issued by the host
//! program; everything the provider decides — how credentials are resolved,
//! when a failed call is retried, and which replies are accepted — is a pure
//! function here, verified for every outcome the service can produce.

use vstd::prelude::*;

use crate::errors::ProviderError;
use crate::provider::{DataKey, DATA_KEY_LEN};
use crate::record::MAX_WRAPPED_KEY_LEN;

verus! {

/// The cache budget suited to a remote provider, whose unwrap calls are
/// network round trips: roughly 100 KB.
pub const REMOTE_CACHE_BYTES: usize = 100000;

/// How many times a transient remote failure is retried before giving up.
pub const DEFAULT_MAX_RETRIES: u32 = 4;

/// How the remote service's credentials are resolved.
pub enum CredentialResolution {
    /// Resolve from the process environment.
    Ambient,
    /// Explicit static credentials, taking precedence whenever an access key
    /// id is supplied.
    Explicit {
        access_key_id: String,
        secret_access_key: String,
        session_token: Option<String>,
        region: String,
    },
}

/// Choose the credential-resolution mode: explicit credentials take
/// precedence whenever an access key id is supplied, and then require the
/// secret and the region; with no access key id, ambient resolution is used.
pub fn resolve_credentials(
    access_key_id: Option<String>,
    secret_access_key: Option<String>,
    session_token: Option<String>,
    region: Option<String>,
) -> (r: Result<CredentialResolution, ProviderError>)
    ensures
        access_key_id is None ==> r is Ok && (r->Ok_0) is Ambient,
        access_key_id is Some && (secret_access_key is None || region is None) ==> r
            == Err::<CredentialResolution, ProviderError>(ProviderError::Malformed),
        access_key_id matches Some(a) ==> (secret_access_key matches Some(s) ==> (region
            matches Some(g) ==> (r is Ok && ((r->Ok_0) matches CredentialResolution::Explicit {
            access_key_id: ra,
            secret_access_key: rs,
            session_token: rt,
            region: rg,
        } && ra == a && rs == s && rt == session_token && rg == g)))),
{
    match access_key_id {
        None => Ok(CredentialResolution::Ambient),
        Some(access_key_id) => match (secret_access_key, region) {
            (Some(secret_access_key), Some(region)) => Ok(
                CredentialResolution::Explicit {
                    access_key_id,
                    secret_access_key,
                    session_token,
                    region,
                },
            ),
            _ => Err(ProviderError::Malformed),
        },
    }
}

/// The class of a failed remote call.
#[derive(Clone, Copy, Debug, PartialEq, Eq, Structural)]
pub enum KmsFailure {
    /// Timeouts, throttling, lost connections: transient, worth retrying.
    Transient,
    /// The service refused the caller: terminal, surfaced immediately and
    /// never silently retried.
    NotAuthorized,
    /// The reply was not in the expected shape: terminal.
    Malformed,
}

/// What the driving loop should do after a failed remote call.
#[derive(Clone, Copy, Debug, PartialEq, Eq, Structural)]
pub enum RetryDecision {
    /// Issue the call again.
    Retry,
    /// Stop and surface this error.
    GiveUp(ProviderError),
}

/// Decide whether a failed remote call is retried: transient failures are
/// retried while attempts remain and surface as `Unavailable` when none do;
/// authorization refusals and malformed replies are terminal at once.
pub fn retry_decision(failure: KmsFailure, attempts_remaining: u32) -> (r: RetryDecision)
    ensures
        failure is Transient && attempts_remaining > 0 ==> r == RetryDecision::Retry,
        failure is Transient && attempts_remaining == 0 ==> r == RetryDecision::GiveUp(
            ProviderError::Unavailable,
        ),
        failure is NotAuthorized ==> r == RetryDecision::GiveUp(ProviderError::NotAuthorized),
        failure is Malformed ==> r == RetryDecision::GiveUp(ProviderError::Malformed),
{
    match failure {
        KmsFailure::Transient => {
            if attempts_remaining > 0 {
                RetryDecision::Retry
            } else {
                RetryDecision::GiveUp(ProviderError::Unavailable)
            }
        },
        KmsFailure::NotAuthorized => RetryDecision::GiveUp(ProviderError::NotAuthorized),
        KmsFailure::Malformed => RetryDecision::GiveUp(ProviderError::Malformed),
    }
}

/// Accept or reject a generate-data-key reply: both the plaintext key and
/// the wrapped key must be present, the plaintext key must have the data-key
/// size, and the wrapped key must fit the wire format's length prefix.
pub fn accept_generated_key(
    plaintext_key: Option<Vec<u8>>,
    wrapped_key: Option<Vec<u8>>,
) -> (r: Result<DataKey, ProviderError>)
    ensures
        r is Err ==> r->Err_0 == ProviderError::Malformed,
        plaintext_key is None || wrapped_key is None ==> r is Err,
        plaintext_key matches Some(k) ==> (wrapped_key matches Some(w) ==> (if k@.len()
            == DATA_KEY_LEN && w@.len() <= MAX_WRAPPED_KEY_LEN {
            r is Ok && (r->Ok_0).key@ == k@ && (r->Ok_0).wrapped@ == w@
        } else {
            r is Err
        })),
{
    match (plaintext_key, wrapped_key) {
        (Some(key), Some(wrapped)) => {
            if key.len() == DATA_KEY_LEN && wrapped.len() <= MAX_WRAPPED_KEY_LEN {
                Ok(DataKey { key, wrapped })
            } else {
                Err(ProviderError::Malformed)
            }
        },
        _ => Err(ProviderError::Malformed),
    }
}

/// Accept or reject a decrypt reply: the plaintext key must be present and
/// have the data-key size.
pub fn accept_unwrapped_key(plaintext_key: Option<Vec<u8>>) -> (r: Result<Vec<u8>, ProviderError>)
    ensures
        r is Err ==> r->Err_0 == ProviderError::Malformed,
        plaintext_key is None ==> r is Err,
        plaintext_key matches Some(k) ==> (if k@.len() == DATA_KEY_LEN {
            r is Ok && (r->Ok_0)@ == k@
        } else {
            r is Err
        }),
{
    match plaintext_key {
        Some(key) => {
            if key.len() == DATA_KEY_LEN {
                Ok(key)
            } else {
                Err(ProviderError::Malformed)
            }
        },
        None => Err(ProviderError::Malformed),
    }
}

} // verus!
