//! Trusted boundary around the AES-GCM primitive and the system's random
//! source. Every cryptographic byte this library touches comes through the
//! functions here; everything above them is verified against their contracts.
//!
//! AES-GCM with a given key, nonce and associated data is a deterministic
//! function of the message, so the seal and open results are given names
//! (`spec_gcm*`) that the rest of the library reasons with.

use vstd::prelude::*;

verus! {

/// Longest message AES-GCM seals: 2^36 - 32 bytes.
pub const GCM_MAX_PLAINTEXT: u64 = 68719476704;

/// Bytes of authentication tag AES-GCM appends to a sealed message.
pub const GCM_TAG_LEN: usize = 16;

/// What `Aes128Gcm` sealing returns for a 16-byte key, 12-byte nonce,
/// associated data and message.
pub uninterp spec fn spec_gcm128_seal(key: Seq<u8>, nonce: Seq<u8>, aad: Seq<u8>, msg: Seq<u8>) -> Seq<u8>;

/// What `Aes128Gcm` opening returns: the sealed message, or `None` when the
/// tag does not authenticate the ciphertext under this key, nonce and
/// associated data.
pub uninterp spec fn spec_gcm128_open(key: Seq<u8>, nonce: Seq<u8>, aad: Seq<u8>, ct: Seq<u8>) -> Option<Seq<u8>>;

/// What `Aes256Gcm` sealing returns for a 32-byte key.
pub uninterp spec fn spec_gcm256_seal(key: Seq<u8>, nonce: Seq<u8>, aad: Seq<u8>, msg: Seq<u8>) -> Seq<u8>;

/// What `Aes256Gcm` opening returns for a 32-byte key.
pub uninterp spec fn spec_gcm256_open(key: Seq<u8>, nonce: Seq<u8>, aad: Seq<u8>, ct: Seq<u8>) -> Option<Seq<u8>>;

/// Relies on `aes_gcm::Aes128Gcm` through `aead::Aead::encrypt`: the result is
/// a function of key, nonce, associated data and message; it is the message's
/// length plus a 16-byte tag; the call fails exactly when the message is over
/// the AES-GCM length bound; and opening the result under the same key, nonce
/// and associated data gives the message back.
#[verifier::external_body]
pub(crate) fn gcm128_seal(key: &[u8], nonce: &[u8], aad: &[u8], msg: &[u8]) -> (r: Result<
    Vec<u8>,
    (),
>)
    requires
        key@.len() == 16,
        nonce@.len() == 12,
        aad@.len() <= 64,
    ensures
        r is Ok <==> msg@.len() <= GCM_MAX_PLAINTEXT,
        r is Ok ==> (r->Ok_0)@ == spec_gcm128_seal(key@, nonce@, aad@, msg@),
        r is Ok ==> (r->Ok_0)@.len() == msg@.len() + GCM_TAG_LEN,
        r is Ok ==> spec_gcm128_open(key@, nonce@, aad@, (r->Ok_0)@) == Some(msg@),
{
    let cipher = <aes_gcm::Aes128Gcm as aes_gcm::KeyInit>::new_from_slice(key).map_err(|_| ())?;
    let nonce: &aes_gcm::Nonce<aes_gcm::aead::consts::U12> = nonce.try_into().map_err(|_| ())?;
    let payload = aes_gcm::aead::Payload { msg, aad };
    aes_gcm::aead::Aead::encrypt(&cipher, nonce, payload).map_err(|_| ())
}

/// Relies on `aes_gcm::Aes128Gcm` through `aead::Aead::decrypt`: the result is
/// a function of key, nonce, associated data and ciphertext; when it succeeds
/// the plaintext is the ciphertext minus its 16-byte tag.
#[verifier::external_body]
pub(crate) fn gcm128_open(key: &[u8], nonce: &[u8], aad: &[u8], ct: &[u8]) -> (r: Result<
    Vec<u8>,
    (),
>)
    requires
        key@.len() == 16,
        nonce@.len() == 12,
        aad@.len() <= 64,
    ensures
        r is Ok <==> spec_gcm128_open(key@, nonce@, aad@, ct@) is Some,
        r is Ok ==> Some((r->Ok_0)@) == spec_gcm128_open(key@, nonce@, aad@, ct@),
        r is Ok ==> (r->Ok_0)@.len() + GCM_TAG_LEN == ct@.len(),
{
    let cipher = <aes_gcm::Aes128Gcm as aes_gcm::KeyInit>::new_from_slice(key).map_err(|_| ())?;
    let nonce: &aes_gcm::Nonce<aes_gcm::aead::consts::U12> = nonce.try_into().map_err(|_| ())?;
    let payload = aes_gcm::aead::Payload { msg: ct, aad };
    aes_gcm::aead::Aead::decrypt(&cipher, nonce, payload).map_err(|_| ())
}

/// Relies on `aes_gcm::Aes256Gcm` through `aead::Aead::encrypt`, as
/// `gcm128_seal` does for the 16-byte-key variant.
#[verifier::external_body]
pub(crate) fn gcm256_seal(key: &[u8], nonce: &[u8], aad: &[u8], msg: &[u8]) -> (r: Result<
    Vec<u8>,
    (),
>)
    requires
        key@.len() == 32,
        nonce@.len() == 12,
        aad@.len() <= 64,
    ensures
        r is Ok <==> msg@.len() <= GCM_MAX_PLAINTEXT,
        r is Ok ==> (r->Ok_0)@ == spec_gcm256_seal(key@, nonce@, aad@, msg@),
        r is Ok ==> (r->Ok_0)@.len() == msg@.len() + GCM_TAG_LEN,
        r is Ok ==> spec_gcm256_open(key@, nonce@, aad@, (r->Ok_0)@) == Some(msg@),
{
    let cipher = <aes_gcm::Aes256Gcm as aes_gcm::KeyInit>::new_from_slice(key).map_err(|_| ())?;
    let nonce: &aes_gcm::Nonce<aes_gcm::aead::consts::U12> = nonce.try_into().map_err(|_| ())?;
    let payload = aes_gcm::aead::Payload { msg, aad };
    aes_gcm::aead::Aead::encrypt(&cipher, nonce, payload).map_err(|_| ())
}

/// Relies on `aes_gcm::Aes256Gcm` through `aead::Aead::decrypt`, as
/// `gcm128_open` does for the 16-byte-key variant.
#[verifier::external_body]
pub(crate) fn gcm256_open(key: &[u8], nonce: &[u8], aad: &[u8], ct: &[u8]) -> (r: Result<
    Vec<u8>,
    (),
>)
    requires
        key@.len() == 32,
        nonce@.len() == 12,
        aad@.len() <= 64,
    ensures
        r is Ok <==> spec_gcm256_open(key@, nonce@, aad@, ct@) is Some,
        r is Ok ==> Some((r->Ok_0)@) == spec_gcm256_open(key@, nonce@, aad@, ct@),
        r is Ok ==> (r->Ok_0)@.len() + GCM_TAG_LEN == ct@.len(),
{
    let cipher = <aes_gcm::Aes256Gcm as aes_gcm::KeyInit>::new_from_slice(key).map_err(|_| ())?;
    let nonce: &aes_gcm::Nonce<aes_gcm::aead::consts::U12> = nonce.try_into().map_err(|_| ())?;
    let payload = aes_gcm::aead::Payload { msg: ct, aad };
    aes_gcm::aead::Aead::decrypt(&cipher, nonce, payload).map_err(|_| ())
}

/// Relies on `rand::rng` and `rand::Rng::fill_bytes` for cryptographically
/// secure random bytes. Nothing is promised of the contents, only the length.
#[verifier::external_body]
pub(crate) fn random_bytes(n: usize) -> (r: Vec<u8>)
    ensures
        r@.len() == n,
{
    let mut buf = vec![0u8; n];
    rand::Rng::fill_bytes(&mut rand::rng(), &mut buf);
    buf
}

} // verus!
