//! End-to-end behavior of the envelope cipher with the local key provider
//! and the caching wrapper.

use enveloperb::cache::{CacheOptions, CachingKeyWrapper};
use enveloperb::cipher::EnvelopeCipher;
use enveloperb::errors::{DecryptionError, ProviderError};
use enveloperb::local::LocalKeyProvider;
use enveloperb::provider::KeyProvider;
use enveloperb::record::EncryptedRecord;

fn local_cipher(key: Vec<u8>) -> EnvelopeCipher<CachingKeyWrapper<LocalKeyProvider>> {
    let provider = LocalKeyProvider::init(key);
    EnvelopeCipher::init(CachingKeyWrapper::new(provider, CacheOptions::default()))
}

#[test]
fn hello_round_trip_with_serialization() {
    let mut cipher = local_cipher(vec![0u8; 16]);
    let record = cipher.encrypt(&b"hello".to_vec()).unwrap();
    assert_eq!(cipher.decrypt(&record).unwrap(), b"hello".to_vec());

    let bytes = record.to_vec().unwrap();
    let revived = EncryptedRecord::from_vec(bytes).unwrap();
    assert_eq!(cipher.decrypt(&revived).unwrap(), b"hello".to_vec());
}

#[test]
fn round_trip_various_plaintexts() {
    let mut cipher = local_cipher(vec![7u8; 16]);
    let cases: Vec<Vec<u8>> = vec![
        Vec::new(),
        vec![0u8],
        vec![0xFFu8; 1],
        b"a slightly longer message with some structure 0123456789".to_vec(),
        vec![0xABu8; 4096],
    ];
    for plaintext in cases {
        let record = cipher.encrypt(&plaintext).unwrap();
        assert_eq!(cipher.decrypt(&record).unwrap(), plaintext);
    }
}

#[test]
fn ciphertext_differs_from_plaintext() {
    let mut cipher = local_cipher(vec![1u8; 16]);
    let plaintext = b"not to be echoed back".to_vec();
    let record = cipher.encrypt(&plaintext).unwrap();
    assert_ne!(record.ciphertext, plaintext);
    assert_eq!(record.ciphertext.len(), plaintext.len() + 16);
}

#[test]
fn nonce_uniqueness_two_encryptions() {
    let mut cipher = local_cipher(vec![3u8; 16]);
    let plaintext = b"same message twice".to_vec();
    let first = cipher.encrypt(&plaintext).unwrap();
    let second = cipher.encrypt(&plaintext).unwrap();
    assert_ne!(first.nonce, second.nonce);
    assert_ne!(first.ciphertext, second.ciphertext);
}

#[test]
fn tamper_any_bit_of_ciphertext_fails() {
    let mut cipher = local_cipher(vec![5u8; 16]);
    let mut record = cipher.encrypt(&b"integrity matters".to_vec()).unwrap();
    for i in 0..record.ciphertext.len() {
        for bit in 0..8 {
            record.ciphertext[i] ^= 1 << bit;
            assert!(cipher.decrypt(&record).is_err());
            record.ciphertext[i] ^= 1 << bit;
        }
    }
    assert_eq!(cipher.decrypt(&record).unwrap(), b"integrity matters".to_vec());
}

#[test]
fn tamper_any_bit_of_wrapped_key_fails() {
    let mut cipher = local_cipher(vec![5u8; 16]);
    let mut record = cipher.encrypt(&b"key integrity matters".to_vec()).unwrap();
    for i in 0..record.wrapped_key.len() {
        for bit in 0..8 {
            record.wrapped_key[i] ^= 1 << bit;
            assert!(cipher.decrypt(&record).is_err());
            record.wrapped_key[i] ^= 1 << bit;
        }
    }
    assert_eq!(
        cipher.decrypt(&record).unwrap(),
        b"key integrity matters".to_vec()
    );
}

#[test]
fn tampered_ciphertext_is_an_authentication_failure() {
    let mut cipher = local_cipher(vec![5u8; 16]);
    let mut record = cipher.encrypt(&b"exact error kind".to_vec()).unwrap();
    let last = record.ciphertext.len() - 1;
    record.ciphertext[last] ^= 1;
    assert_eq!(
        cipher.decrypt(&record),
        Err(DecryptionError::AuthenticationFailed)
    );
}

#[test]
fn record_with_wrong_nonce_size_is_rejected() {
    let mut cipher = local_cipher(vec![5u8; 16]);
    let mut record = cipher.encrypt(&b"nonce size".to_vec()).unwrap();
    record.nonce.pop();
    assert_eq!(
        cipher.decrypt(&record),
        Err(DecryptionError::AuthenticationFailed)
    );
}

#[test]
fn wrong_master_key_fails_as_unwrap_error() {
    let mut cipher = local_cipher(vec![0u8; 16]);
    let record = cipher.encrypt(&b"secret".to_vec()).unwrap();
    let mut other = local_cipher(vec![9u8; 16]);
    assert_eq!(
        other.decrypt(&record),
        Err(DecryptionError::KeyUnavailable(ProviderError::Malformed))
    );
}

#[test]
fn cache_transparency_on_and_off() {
    let master = vec![2u8; 16];
    let mut cached = local_cipher(master.clone());
    let mut uncached = EnvelopeCipher::init(CachingKeyWrapper::new(
        LocalKeyProvider::init(master),
        CacheOptions::default().with_max_bytes(0),
    ));

    let plaintext = b"cache must not change results".to_vec();
    let from_cached = cached.encrypt(&plaintext).unwrap();
    let from_uncached = uncached.encrypt(&plaintext).unwrap();

    // Either cipher decrypts either record to the same plaintext, repeatedly.
    for _ in 0..2 {
        assert_eq!(cached.decrypt(&from_cached).unwrap(), plaintext);
        assert_eq!(cached.decrypt(&from_uncached).unwrap(), plaintext);
        assert_eq!(uncached.decrypt(&from_cached).unwrap(), plaintext);
        assert_eq!(uncached.decrypt(&from_uncached).unwrap(), plaintext);
    }
}

#[test]
fn generate_seeds_cache_for_unwrap() {
    let provider = LocalKeyProvider::init(vec![4u8; 16]);
    let mut cache = CachingKeyWrapper::new(provider, CacheOptions::default());
    let dk = cache.generate_and_wrap().unwrap();
    assert!(cache.contains_wrapped(&dk.wrapped));
    assert_eq!(cache.unwrap_key(&dk.wrapped).unwrap(), dk.key);
}

#[test]
fn unwrap_miss_inserts_into_cache() {
    let mut direct = LocalKeyProvider::init(vec![6u8; 16]);
    let dk = direct.generate_and_wrap().unwrap();

    let provider = LocalKeyProvider::init(vec![6u8; 16]);
    let mut cache = CachingKeyWrapper::new(provider, CacheOptions::default());
    assert!(!cache.contains_wrapped(&dk.wrapped));
    assert_eq!(cache.unwrap_key(&dk.wrapped).unwrap(), dk.key);
    assert!(cache.contains_wrapped(&dk.wrapped));
}

#[test]
fn cache_eviction_stays_within_budget_and_is_lru() {
    // A local entry costs 61 (wrapped) + 32 (key) = 93 bytes; a budget of 200
    // holds two entries.
    let provider = LocalKeyProvider::init(vec![8u8; 16]);
    let mut cache = CachingKeyWrapper::new(
        provider,
        CacheOptions::default().with_max_bytes(200),
    );
    let first = cache.generate_and_wrap().unwrap();
    let second = cache.generate_and_wrap().unwrap();
    assert_eq!(cache.cached_bytes(), 186);
    assert_eq!(cache.entry_count(), 2);

    // Touch the first entry so the second becomes least recently used.
    cache.unwrap_key(&first.wrapped).unwrap();

    let third = cache.generate_and_wrap().unwrap();
    assert!(cache.cached_bytes() <= cache.max_bytes());
    assert_eq!(cache.entry_count(), 2);
    assert!(cache.contains_wrapped(&first.wrapped));
    assert!(!cache.contains_wrapped(&second.wrapped));
    assert!(cache.contains_wrapped(&third.wrapped));
}

#[test]
fn oversized_entry_is_never_cached() {
    let provider = LocalKeyProvider::init(vec![8u8; 16]);
    let mut cache = CachingKeyWrapper::new(
        provider,
        CacheOptions::default().with_max_bytes(50),
    );
    let dk = cache.generate_and_wrap().unwrap();
    assert_eq!(cache.entry_count(), 0);
    assert_eq!(cache.cached_bytes(), 0);
    // The provider still unwraps it; the cache just passes through.
    assert_eq!(cache.unwrap_key(&dk.wrapped).unwrap(), dk.key);
    assert_eq!(cache.entry_count(), 0);
}

#[test]
fn local_provider_wrap_and_unwrap() {
    let mut provider = LocalKeyProvider::init(vec![1u8; 16]);
    let dk = provider.generate_and_wrap().unwrap();
    assert_eq!(dk.key.len(), 32);
    assert_eq!(dk.wrapped.len(), 61);
    assert_eq!(dk.wrapped[0], 1);
    assert_eq!(provider.unwrap_key(&dk.wrapped).unwrap(), dk.key);
}

#[test]
fn local_provider_rejects_malformed_wrapped_keys() {
    let mut provider = LocalKeyProvider::init(vec![1u8; 16]);
    assert_eq!(
        provider.unwrap_key(&vec![1u8; 10]),
        Err(ProviderError::Malformed)
    );
    let dk = provider.generate_and_wrap().unwrap();
    let mut bad_version = dk.wrapped.clone();
    bad_version[0] = 2;
    assert_eq!(
        provider.unwrap_key(&bad_version),
        Err(ProviderError::Malformed)
    );
}
