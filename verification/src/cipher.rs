//! The envelope cipher: for each message it obtains a fresh data key and its
//! wrapped form from the configured provider, seals the payload under a fresh
//! nonce, and assembles the encrypted record. Decryption unwraps the record's
//! key through the provider and opens the ciphertext, failing loudly if the
//! authentication check does not pass.

use vstd::prelude::*;

use crate::aead::{
    gcm256_open, gcm256_seal, random_bytes, spec_gcm256_open, GCM_MAX_PLAINTEXT, GCM_TAG_LEN,
};
use crate::errors::{DecryptionError, EncryptionError};
use crate::provider::KeyProvider;
use crate::record::{EncryptedRecord, RecordModel, NONCE_LEN};

verus! {

/// What it means for a record to recover a plaintext under a provider: the
/// record's wrapped key stands for a data key, and opening the ciphertext
/// under that key with the record's nonce gives the plaintext.
pub open spec fn record_recovers<P: KeyProvider>(
    prov: P,
    r: RecordModel,
    plaintext: Seq<u8>,
) -> bool {
    &&& r.nonce.len() == NONCE_LEN
    &&& prov.unwraps_to(r.wrapped_key) matches Some(k) && spec_gcm256_open(
        k,
        r.nonce,
        Seq::<u8>::empty(),
        r.ciphertext,
    ) == Some(plaintext)
}

/// Round trip: a record recovers at most one plaintext, so whatever
/// `decrypt` returns for a record `encrypt` built from plaintext `p` is
/// exactly `p`. Together with the ensures of `encrypt` (the record recovers
/// its input) and of `decrypt` (the result recovers from the record, and
/// recovery forces success when the provider cannot defer), this is
/// `decrypt(encrypt(p)) == p`.
pub proof fn lemma_round_trip<P: KeyProvider>(prov: P, r: RecordModel, m1: Seq<u8>, m2: Seq<u8>)
    requires
        record_recovers(prov, r, m1),
        record_recovers(prov, r, m2),
    ensures
        m1 == m2,
{
}

/// The envelope cipher over a key provider (or a caching wrapper around
/// one).
pub struct EnvelopeCipher<P> {
    /// The source of data keys.
    pub provider: P,
}

impl<P: KeyProvider> EnvelopeCipher<P> {
    /// The cipher is well formed when its provider is.
    pub open spec fn wf(&self) -> bool {
        self.provider.wf()
    }

    /// Build a cipher around a provider.
    pub fn init(provider: P) -> (r: Self)
        ensures
            r.provider == provider,
    {
        EnvelopeCipher { provider }
    }

    /// Encrypt a payload: generate a fresh data key, seal the payload under a
    /// fresh nonce, and assemble the record. The plaintext data key is
    /// dropped before returning. Fails only if the provider cannot produce a
    /// key or the payload is over the AEAD length bound.
    pub fn encrypt(&mut self, msg: &Vec<u8>) -> (r: Result<EncryptedRecord, EncryptionError>)
        requires
            old(self).wf(),
        ensures
            final(self).wf(),
            forall|w: Seq<u8>|
                #[trigger] final(self).provider.unwraps_to(w) == old(self).provider.unwraps_to(w),
            final(self).provider.always_available() == old(self).provider.always_available(),
            r is Ok ==> (r->Ok_0)@.wf() && (r->Ok_0)@.ciphertext.len() == msg@.len() + GCM_TAG_LEN
                && record_recovers(final(self).provider, (r->Ok_0)@, msg@),
            r is Err ==> (r->Err_0) is KeyGeneration || msg@.len() > GCM_MAX_PLAINTEXT,
            old(self).provider.always_available() && msg@.len() <= GCM_MAX_PLAINTEXT ==> r is Ok,
    {
        let dk = match self.provider.generate_and_wrap() {
            Ok(dk) => dk,
            Err(e) => {
                return Err(EncryptionError::KeyGeneration(e));
            },
        };
        let nonce = random_bytes(NONCE_LEN);
        let aad: Vec<u8> = Vec::new();
        match gcm256_seal(dk.key.as_slice(), nonce.as_slice(), aad.as_slice(), msg.as_slice()) {
            Ok(ciphertext) => {
                let rec = EncryptedRecord { wrapped_key: dk.wrapped, nonce, ciphertext };
                proof {
                    assert(aad@ =~= Seq::<u8>::empty());
                    assert(self.provider.unwraps_to(rec@.wrapped_key) == Some(dk.key@));
                    assert(spec_gcm256_open(dk.key@, rec@.nonce, Seq::<u8>::empty(), rec@.ciphertext)
                        == Some(msg@));
                }
                Ok(rec)
            },
            Err(_) => Err(EncryptionError::PayloadTooLarge),
        }
    }

    /// Decrypt a record: unwrap its data key through the provider and open
    /// the ciphertext. Succeeds on every record that recovers a plaintext
    /// whenever the provider cannot defer; a provider failure is surfaced as
    /// `KeyUnavailable`, a failed authentication check as
    /// `AuthenticationFailed`, never as altered plaintext.
    pub fn decrypt(&mut self, record: &EncryptedRecord) -> (r: Result<Vec<u8>, DecryptionError>)
        requires
            old(self).wf(),
        ensures
            final(self).wf(),
            forall|w: Seq<u8>|
                #[trigger] final(self).provider.unwraps_to(w) == old(self).provider.unwraps_to(w),
            final(self).provider.always_available() == old(self).provider.always_available(),
            r is Ok ==> record_recovers(final(self).provider, record@, (r->Ok_0)@),
            forall|m: Seq<u8>|
                old(self).provider.always_available() && #[trigger] record_recovers(
                    old(self).provider,
                    record@,
                    m,
                ) ==> r is Ok && (r->Ok_0)@ == m,
            r == Err::<Vec<u8>, DecryptionError>(DecryptionError::AuthenticationFailed) ==> (
            record@.nonce.len() != NONCE_LEN || (final(self).provider.unwraps_to(
                record@.wrapped_key,
            ) matches Some(k) && spec_gcm256_open(
                k,
                record@.nonce,
                Seq::<u8>::empty(),
                record@.ciphertext,
            ) is None)),
    {
        if record.nonce.len() != NONCE_LEN {
            return Err(DecryptionError::AuthenticationFailed);
        }
        let key = match self.provider.unwrap_key(&record.wrapped_key) {
            Ok(k) => k,
            Err(e) => {
                return Err(DecryptionError::KeyUnavailable(e));
            },
        };
        let aad: Vec<u8> = Vec::new();
        proof {
            assert(aad@ =~= Seq::<u8>::empty());
        }
        match gcm256_open(
            key.as_slice(),
            record.nonce.as_slice(),
            aad.as_slice(),
            record.ciphertext.as_slice(),
        ) {
            Ok(plaintext) => {
                proof {
                    assert(self.provider.unwraps_to(record@.wrapped_key) == Some(key@));
                }
                Ok(plaintext)
            },
            Err(_) => Err(DecryptionError::AuthenticationFailed),
        }
    }
}

} // verus!
