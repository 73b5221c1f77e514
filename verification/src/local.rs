//! The local key provider: wraps data keys under one pre-shared 128-bit
//! master key with authenticated encryption. A wrapped key is a version byte,
//! the wrap nonce, and the sealed data key; tampering with any of it makes
//! unwrapping fail outright.

use vstd::prelude::*;

use crate::aead::{gcm128_open, gcm128_seal, random_bytes, spec_gcm128_open};
use crate::errors::ProviderError;
use crate::provider::{DataKey, KeyProvider, DATA_KEY_LEN};
use crate::record::NONCE_LEN;

verus! {

/// Bytes in the local master key.
pub const MASTER_KEY_LEN: usize = 16;

/// Version byte at the head of every locally wrapped key.
pub const KEY_WRAP_VERSION: u8 = 1;

/// Total bytes of a locally wrapped key: version byte, 12-byte nonce, sealed
/// 32-byte data key with its 16-byte tag.
pub const LOCAL_WRAPPED_LEN: usize = 61;

/// The data key a locally wrapped key stands for under a given master key:
/// the version must match and the sealed bytes must open under the wrap
/// nonce, with the version byte bound as associated data.
pub open spec fn local_unwraps_to(master: Seq<u8>, wrapped: Seq<u8>) -> Option<Seq<u8>> {
    if wrapped.len() == LOCAL_WRAPPED_LEN && wrapped[0] == KEY_WRAP_VERSION {
        spec_gcm128_open(
            master,
            wrapped.subrange(1, 1 + NONCE_LEN as int),
            seq![KEY_WRAP_VERSION],
            wrapped.subrange(1 + NONCE_LEN as int, LOCAL_WRAPPED_LEN as int),
        )
    } else {
        None
    }
}

/// A key provider holding one pre-shared 128-bit master key.
pub struct LocalKeyProvider {
    master: Vec<u8>,
}

impl LocalKeyProvider {
    /// The master key this provider wraps under.
    pub closed spec fn spec_master(&self) -> Seq<u8> {
        self.master@
    }

    /// Construct a provider from a 128-bit master key.
    pub fn init(master: Vec<u8>) -> (r: Self)
        requires
            master@.len() == MASTER_KEY_LEN,
        ensures
            r.wf(),
            r.spec_master() == master@,
    {
        LocalKeyProvider { master }
    }
}

impl KeyProvider for LocalKeyProvider {
    closed spec fn wf(&self) -> bool {
        self.master@.len() == MASTER_KEY_LEN
    }

    open spec fn unwraps_to(&self, wrapped: Seq<u8>) -> Option<Seq<u8>> {
        local_unwraps_to(self.spec_master(), wrapped)
    }

    open spec fn always_available(&self) -> bool {
        true
    }

    fn generate_and_wrap(&mut self) -> (r: Result<DataKey, ProviderError>) {
        let key = random_bytes(DATA_KEY_LEN);
        let nonce = random_bytes(NONCE_LEN);
        let aad: Vec<u8> = vec![KEY_WRAP_VERSION];
        match gcm128_seal(self.master.as_slice(), nonce.as_slice(), aad.as_slice(), key.as_slice()) {
            Ok(sealed) => {
                let mut wrapped: Vec<u8> = Vec::new();
                wrapped.push(KEY_WRAP_VERSION);
                wrapped.extend_from_slice(nonce.as_slice());
                wrapped.extend_from_slice(sealed.as_slice());
                proof {
                    assert(aad@ =~= seq![KEY_WRAP_VERSION]);
                    assert(wrapped@.subrange(1, 1 + NONCE_LEN as int) =~= nonce@);
                    assert(wrapped@.subrange(1 + NONCE_LEN as int, LOCAL_WRAPPED_LEN as int)
                        =~= sealed@);
                }
                Ok(DataKey { key, wrapped })
            },
            Err(_) => {
                proof {
                    assert(false);
                }
                Err(ProviderError::Malformed)
            },
        }
    }

    fn unwrap_key(&mut self, wrapped: &Vec<u8>) -> (r: Result<Vec<u8>, ProviderError>) {
        if wrapped.len() != LOCAL_WRAPPED_LEN {
            return Err(ProviderError::Malformed);
        }
        if *vstd::slice::slice_index_get(wrapped.as_slice(), 0) != KEY_WRAP_VERSION {
            return Err(ProviderError::Malformed);
        }
        let nonce = vstd::slice::slice_subrange(wrapped.as_slice(), 1, 1 + NONCE_LEN);
        let sealed = vstd::slice::slice_subrange(wrapped.as_slice(), 1 + NONCE_LEN, LOCAL_WRAPPED_LEN);
        let aad: Vec<u8> = vec![KEY_WRAP_VERSION];
        proof {
            assert(aad@ =~= seq![KEY_WRAP_VERSION]);
        }
        match gcm128_open(self.master.as_slice(), nonce, aad.as_slice(), sealed) {
            Ok(key) => Ok(key),
            Err(_) => Err(ProviderError::Malformed),
        }
    }
}

} // verus!
