//! The remote provider's decision functions: credential resolution, retry
//! policy, and reply validation.

use enveloperb::errors::ProviderError;
use enveloperb::kms::{
    accept_generated_key, accept_unwrapped_key, resolve_credentials, retry_decision,
    CredentialResolution, KmsFailure, RetryDecision,
};

#[test]
fn no_access_key_means_ambient_resolution() {
    let r = resolve_credentials(None, None, None, None).unwrap();
    assert!(matches!(r, CredentialResolution::Ambient));
    // Other fields alone do not trigger the explicit path.
    let r = resolve_credentials(None, Some("s".into()), None, Some("r".into())).unwrap();
    assert!(matches!(r, CredentialResolution::Ambient));
}

#[test]
fn explicit_credentials_take_precedence() {
    let r = resolve_credentials(
        Some("AKID".into()),
        Some("SECRET".into()),
        Some("TOKEN".into()),
        Some("eu-west-1".into()),
    )
    .unwrap();
    match r {
        CredentialResolution::Explicit {
            access_key_id,
            secret_access_key,
            session_token,
            region,
        } => {
            assert_eq!(access_key_id, "AKID");
            assert_eq!(secret_access_key, "SECRET");
            assert_eq!(session_token.as_deref(), Some("TOKEN"));
            assert_eq!(region, "eu-west-1");
        }
        CredentialResolution::Ambient => panic!("expected the explicit path"),
    }
}

#[test]
fn partial_explicit_credentials_are_malformed() {
    assert!(matches!(
        resolve_credentials(Some("AKID".into()), None, None, Some("r".into())),
        Err(ProviderError::Malformed)
    ));
    assert!(matches!(
        resolve_credentials(Some("AKID".into()), Some("s".into()), None, None),
        Err(ProviderError::Malformed)
    ));
}

#[test]
fn transient_failures_are_retried_while_attempts_remain() {
    assert_eq!(retry_decision(KmsFailure::Transient, 3), RetryDecision::Retry);
    assert_eq!(retry_decision(KmsFailure::Transient, 1), RetryDecision::Retry);
    assert_eq!(
        retry_decision(KmsFailure::Transient, 0),
        RetryDecision::GiveUp(ProviderError::Unavailable)
    );
}

#[test]
fn authorization_failures_are_never_retried() {
    assert_eq!(
        retry_decision(KmsFailure::NotAuthorized, 5),
        RetryDecision::GiveUp(ProviderError::NotAuthorized)
    );
    assert_eq!(
        retry_decision(KmsFailure::Malformed, 5),
        RetryDecision::GiveUp(ProviderError::Malformed)
    );
}

#[test]
fn generate_reply_validation() {
    let dk = accept_generated_key(Some(vec![1; 32]), Some(vec![2; 100])).unwrap();
    assert_eq!(dk.key, vec![1; 32]);
    assert_eq!(dk.wrapped, vec![2; 100]);

    assert_eq!(
        accept_generated_key(None, Some(vec![2; 100])),
        Err(ProviderError::Malformed)
    );
    assert_eq!(
        accept_generated_key(Some(vec![1; 32]), None),
        Err(ProviderError::Malformed)
    );
    assert_eq!(
        accept_generated_key(Some(vec![1; 16]), Some(vec![2; 100])),
        Err(ProviderError::Malformed)
    );
    assert_eq!(
        accept_generated_key(Some(vec![1; 32]), Some(vec![2; 65536])),
        Err(ProviderError::Malformed)
    );
}

#[test]
fn unwrap_reply_validation() {
    assert_eq!(accept_unwrapped_key(Some(vec![7; 32])).unwrap(), vec![7; 32]);
    assert_eq!(accept_unwrapped_key(None), Err(ProviderError::Malformed));
    assert_eq!(
        accept_unwrapped_key(Some(vec![7; 31])),
        Err(ProviderError::Malformed)
    );
}
