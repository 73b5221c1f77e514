//! The key-provider abstraction: a source of fresh data keys and the
//! authority that can unwrap them again. Implementations range from a local
//! pre-shared key to a remote key-management service; the envelope cipher and
//! the caching wrapper are verified against this contract alone.

use vstd::prelude::*;

use crate::errors::ProviderError;
use crate::record::MAX_WRAPPED_KEY_LEN;

verus! {

/// Bytes in a plaintext data key (the payload cipher's key size).
pub const DATA_KEY_LEN: usize = 32;

/// A freshly generated data key together with its wrapped form.
#[derive(Debug, PartialEq, Eq)]
pub struct DataKey {
    /// The plaintext key; used to seal one message, then discarded.
    pub key: Vec<u8>,
    /// The wrapped (encrypted) key; safe to store beside the ciphertext.
    pub wrapped: Vec<u8>,
}

/// A provider of data keys, polymorphic over two capabilities: generate a
/// fresh key and wrap it, and unwrap a wrapped key. Ghost items carry
/// conservative defaults, so a provider outside this crate can implement the
/// two operations alone and is then promised nothing.
pub trait KeyProvider: Sized {
    /// The provider's internal well-formedness. A provider that does not say
    /// otherwise is well formed as built.
    open spec fn wf(&self) -> bool {
        true
    }

    /// The plaintext data key a wrapped key stands for under this provider's
    /// master key, if any. Being a function, it makes a wrapped key stand
    /// for at most one data key. A provider that does not say otherwise
    /// vouches for nothing.
    open spec fn unwraps_to(&self, wrapped: Seq<u8>) -> Option<Seq<u8>> {
        None
    }

    /// Whether every well-formed call is owed success: true of providers with
    /// no network and no external authority that could turn the caller away.
    /// A provider that does not say otherwise may always defer.
    open spec fn always_available(&self) -> bool {
        false
    }

    /// Produce a fresh data key and its wrapped form. Every call is a fresh
    /// key: results are never served from any cache on this path.
    fn generate_and_wrap(&mut self) -> (r: Result<DataKey, ProviderError>)
        requires
            old(self).wf(),
        ensures
            final(self).wf(),
            forall|w: Seq<u8>| #[trigger] final(self).unwraps_to(w) == old(self).unwraps_to(w),
            final(self).always_available() == old(self).always_available(),
            r is Ok ==> (r->Ok_0).key@.len() == DATA_KEY_LEN && (r->Ok_0).wrapped@.len()
                <= MAX_WRAPPED_KEY_LEN && final(self).unwraps_to((r->Ok_0).wrapped@) == Some(
                (r->Ok_0).key@,
            ),
            old(self).always_available() ==> r is Ok,
    ;

    /// Recover the plaintext data key a wrapped key stands for. Owed success
    /// on every wrapped key this provider vouches for, unless an external
    /// authority may defer or refuse.
    fn unwrap_key(&mut self, wrapped: &Vec<u8>) -> (r: Result<Vec<u8>, ProviderError>)
        requires
            old(self).wf(),
        ensures
            final(self).wf(),
            forall|w: Seq<u8>| #[trigger] final(self).unwraps_to(w) == old(self).unwraps_to(w),
            final(self).always_available() == old(self).always_available(),
            r is Ok ==> (r->Ok_0)@.len() == DATA_KEY_LEN && final(self).unwraps_to(wrapped@)
                == Some((r->Ok_0)@),
            old(self).always_available() && old(self).unwraps_to(wrapped@) is Some ==> r is Ok,
    ;
}

} // verus!
