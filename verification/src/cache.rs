//! A byte-budgeted cache around any key provider. It maps wrapped-key bytes
//! to the plaintext data key they stand for, so a near-future unwrap of a key
//! this process wrapped or unwrapped before costs no provider call. Entries
//! are kept in recency order and evicted least-recently-used first; the total
//! of cached bytes never exceeds the configured budget. The cache is an
//! optimization only: it vouches for exactly the pairs the inner provider
//! does, and generation always reaches the inner provider for a fresh key.

use vstd::prelude::*;

use crate::errors::ProviderError;
use crate::provider::{DataKey, KeyProvider, DATA_KEY_LEN};
use crate::record::MAX_WRAPPED_KEY_LEN;
use vstd::slice::slice_to_vec;

verus! {

/// The default cache budget in bytes: a conservative few KB.
pub const DEFAULT_CACHE_BYTES: usize = 4096;

/// Configuration for a `CachingKeyWrapper`: the byte budget.
#[derive(Clone, Copy, Debug)]
pub struct CacheOptions {
    max_bytes: usize,
}

impl CacheOptions {
    /// The configured budget.
    pub closed spec fn spec_max_bytes(&self) -> int {
        self.max_bytes as int
    }

    /// Override the byte budget. A budget of zero disables caching.
    pub fn with_max_bytes(self, max_bytes: usize) -> (r: Self)
        ensures
            r.spec_max_bytes() == max_bytes as int,
    {
        CacheOptions { max_bytes }
    }
}

impl Default for CacheOptions {
    /// The conservative default budget.
    fn default() -> (r: Self)
        ensures
            r.spec_max_bytes() == DEFAULT_CACHE_BYTES as int,
    {
        CacheOptions { max_bytes: DEFAULT_CACHE_BYTES }
    }
}

struct CacheEntry {
    wrapped: Vec<u8>,
    key: Vec<u8>,
}

/// The bytes an entry accounts for: its wrapped-key length plus its
/// plaintext-key length.
spec fn entry_size(e: CacheEntry) -> int {
    e.wrapped@.len() + e.key@.len() as int
}

spec fn entries_bytes(s: Seq<CacheEntry>) -> int
    decreases s.len(),
{
    if s.len() == 0 {
        0
    } else {
        entries_bytes(s.drop_last()) + entry_size(s.last())
    }
}

proof fn lemma_entries_bytes_nonneg(s: Seq<CacheEntry>)
    ensures
        entries_bytes(s) >= 0,
    decreases s.len(),
{
    if s.len() > 0 {
        lemma_entries_bytes_nonneg(s.drop_last());
    }
}

proof fn lemma_entries_bytes_push(s: Seq<CacheEntry>, e: CacheEntry)
    ensures
        entries_bytes(s.push(e)) == entries_bytes(s) + entry_size(e),
{
    assert(s.push(e).drop_last() =~= s);
    assert(s.push(e).last() == e);
}

proof fn lemma_entries_bytes_remove(s: Seq<CacheEntry>, i: int)
    requires
        0 <= i < s.len(),
    ensures
        entries_bytes(s.remove(i)) == entries_bytes(s) - entry_size(s[i]),
    decreases s.len(),
{
    if i == s.len() - 1 {
        assert(s.remove(i) =~= s.drop_last());
    } else {
        lemma_entries_bytes_remove(s.drop_last(), i);
        assert(s.remove(i).drop_last() =~= s.drop_last().remove(i));
        assert(s.remove(i).last() == s.last());
    }
}

/// The cache's internal invariant: the byte total is the sum over the
/// entries and stays within the budget, every cached pair is vouched for by
/// the inner provider, and no wrapped key appears twice.
spec fn cache_inv<P: KeyProvider>(c: CachingKeyWrapper<P>) -> bool {
    &&& c.provider.wf()
    &&& c.total_bytes as int == entries_bytes(c.entries@)
    &&& c.total_bytes <= c.max_bytes
    &&& forall|i: int|
        0 <= i < c.entries@.len() ==> c.provider.unwraps_to(
            (#[trigger] c.entries@[i]).wrapped@,
        ) == Some(c.entries@[i].key@) && c.entries@[i].key@.len() == DATA_KEY_LEN
    &&& forall|i: int, j: int|
        #![trigger c.entries@[i], c.entries@[j]]
        0 <= i < j < c.entries@.len() ==> c.entries@[i].wrapped@ != c.entries@[j].wrapped@
}

/// A decorator for any `KeyProvider`, adding a byte-budgeted
/// least-recently-used cache of unwrapped keys.
pub struct CachingKeyWrapper<P> {
    provider: P,
    entries: Vec<CacheEntry>,
    total_bytes: usize,
    max_bytes: usize,
}

impl<P: KeyProvider> CachingKeyWrapper<P> {
    /// The provider this cache decorates.
    pub closed spec fn spec_inner(&self) -> P {
        self.provider
    }

    /// The cached pairs of wrapped-key and plaintext-key bytes, least
    /// recently used first.
    pub closed spec fn spec_contents(&self) -> Seq<(Seq<u8>, Seq<u8>)> {
        self.entries@.map_values(|e: CacheEntry| (e.wrapped@, e.key@))
    }

    /// The bytes the cache currently accounts for.
    pub closed spec fn spec_cached_bytes(&self) -> int {
        self.total_bytes as int
    }

    /// The configured budget.
    pub closed spec fn spec_max_bytes(&self) -> int {
        self.max_bytes as int
    }

    /// Whether some entry caches this wrapped key.
    pub open spec fn spec_has(&self, wrapped: Seq<u8>) -> bool {
        exists|i: int|
            0 <= i < self.spec_contents().len() && (#[trigger] self.spec_contents()[i]).0
                == wrapped
    }

    /// Wrap a provider with a cache configured by `options`.
    pub fn new(provider: P, options: CacheOptions) -> (r: Self)
        requires
            provider.wf(),
        ensures
            r.wf(),
            r.spec_inner() == provider,
            r.spec_contents() =~= Seq::<(Seq<u8>, Seq<u8>)>::empty(),
            r.spec_cached_bytes() == 0,
            r.spec_max_bytes() == options.spec_max_bytes(),
    {
        let r = CachingKeyWrapper::<P> {
            provider,
            entries: Vec::new(),
            total_bytes: 0,
            max_bytes: options.max_bytes,
        };
        proof {
            assert(r.spec_contents() =~= Seq::<(Seq<u8>, Seq<u8>)>::empty());
        }
        r
    }

    /// How many bytes the cache holds right now.
    pub fn cached_bytes(&self) -> (r: usize)
        ensures
            r as int == self.spec_cached_bytes(),
    {
        self.total_bytes
    }

    /// The configured byte budget.
    pub fn max_bytes(&self) -> (r: usize)
        ensures
            r as int == self.spec_max_bytes(),
    {
        self.max_bytes
    }

    /// How many keys the cache holds right now.
    pub fn entry_count(&self) -> (r: usize)
        ensures
            r as int == self.spec_contents().len(),
    {
        self.entries.len()
    }

    /// Whether this wrapped key is cached.
    pub fn contains_wrapped(&self, wrapped: &Vec<u8>) -> (r: bool)
        ensures
            r == self.spec_has(wrapped@),
    {
        let n = self.entries.len();
        let mut i: usize = 0;
        while i < n
            invariant
                n == self.entries@.len(),
                0 <= i <= n,
                forall|j: int| 0 <= j < i ==> (#[trigger] self.entries@[j]).wrapped@ != wrapped@,
            decreases n - i,
        {
            if bytes_eq(&self.entries[i].wrapped, wrapped) {
                proof {
                    assert((self.spec_contents()[i as int]).0 == wrapped@);
                }
                return true;
            }
            i += 1;
        }
        proof {
            if self.spec_has(wrapped@) {
                let j = choose|j: int|
                    0 <= j < self.spec_contents().len() && (#[trigger] self.spec_contents()[j]).0
                        == wrapped@;
                assert((self.entries@[j]).wrapped@ == wrapped@);
                assert(false);
            }
        }
        false
    }

    /// Remove the entry for this wrapped key if one is cached, releasing its
    /// bytes. The invariant guarantees at most one exists.
    fn remove_entry(&mut self, wrapped: &Vec<u8>)
        requires
            old(self).wf(),
        ensures
            final(self).wf(),
            final(self).spec_inner() == old(self).spec_inner(),
            final(self).spec_max_bytes() == old(self).spec_max_bytes(),
            !final(self).spec_has(wrapped@),
    {
        let n = self.entries.len();
        let mut i: usize = 0;
        while i < n
            invariant
                old(self).wf(),
                *self == *old(self),
                n == self.entries@.len(),
                0 <= i <= n,
                forall|j: int| 0 <= j < i ==> (#[trigger] self.entries@[j]).wrapped@ != wrapped@,
            decreases n - i,
        {
            if bytes_eq(&self.entries[i].wrapped, wrapped) {
                proof {
                    assert(cache_inv(*self));
                    lemma_entries_bytes_remove(self.entries@, i as int);
                    lemma_entries_bytes_nonneg(self.entries@.remove(i as int));
                }
                let ghost pre = self.entries@;
                let removed = self.entries.remove(i);
                let released = removed.wrapped.len() + removed.key.len();
                self.total_bytes = self.total_bytes - released;
                proof {
                    assert(forall|a: int|
                        0 <= a < self.entries@.len() ==> #[trigger] self.entries@[a] == (if a < i {
                            pre[a]
                        } else {
                            pre[a + 1]
                        }));
                    assert(cache_inv(*self));
                    if self.spec_has(wrapped@) {
                        let j = choose|j: int|
                            0 <= j < self.spec_contents().len() && (
                            #[trigger] self.spec_contents()[j]).0 == wrapped@;
                        assert(self.entries@[j].wrapped@ == wrapped@);
                        assert(false);
                    }
                }
                return ;
            }
            i += 1;
        }
        proof {
            if self.spec_has(wrapped@) {
                let j = choose|j: int|
                    0 <= j < self.spec_contents().len() && (#[trigger] self.spec_contents()[j]).0
                        == wrapped@;
                assert(self.entries@[j].wrapped@ == wrapped@);
                assert(false);
            }
        }
    }

    /// Record that `wrapped` stands for `key`, evicting least-recently-used
    /// entries until the new entry fits the budget. An entry larger than the
    /// whole budget is not cached at all.
    fn note_key(&mut self, wrapped: Vec<u8>, key: Vec<u8>)
        requires
            old(self).wf(),
            old(self).spec_inner().unwraps_to(wrapped@) == Some(key@),
            key@.len() == DATA_KEY_LEN,
            wrapped@.len() <= MAX_WRAPPED_KEY_LEN,
        ensures
            final(self).wf(),
            final(self).spec_inner() == old(self).spec_inner(),
            final(self).spec_max_bytes() == old(self).spec_max_bytes(),
    {
        let size = wrapped.len() + key.len();
        if size > self.max_bytes {
            return ;
        }
        self.remove_entry(&wrapped);
        while self.max_bytes - self.total_bytes < size
            invariant
                self.wf(),
                self.spec_inner() == old(self).spec_inner(),
                self.spec_max_bytes() == old(self).spec_max_bytes(),
                size == wrapped@.len() + key@.len(),
                size <= self.max_bytes,
                !self.spec_has(wrapped@),
            decreases self.spec_cached_bytes(),
        {
            proof {
                assert(cache_inv(*self));
                if self.entries@.len() == 0 {
                    assert(false);
                }
                lemma_entries_bytes_remove(self.entries@, 0);
                lemma_entries_bytes_nonneg(self.entries@.remove(0));
            }
            let ghost pre = self.entries@;
            let ghost had = *self;
            let evicted = self.entries.remove(0);
            let released = evicted.wrapped.len() + evicted.key.len();
            self.total_bytes = self.total_bytes - released;
            proof {
                assert(forall|a: int|
                    0 <= a < self.entries@.len() ==> #[trigger] self.entries@[a] == pre[a + 1]);
                assert(cache_inv(*self));
                if self.spec_has(wrapped@) {
                    let j = choose|j: int|
                        0 <= j < self.spec_contents().len() && (
                        #[trigger] self.spec_contents()[j]).0 == wrapped@;
                    assert(self.entries@[j].wrapped@ == wrapped@);
                    assert(had.spec_contents()[j + 1].0 == wrapped@);
                    assert(false);
                }
            }
        }
        proof {
            assert(cache_inv(*self));
            lemma_entries_bytes_push(self.entries@, CacheEntry { wrapped, key });
        }
        let ghost pre_state = *self;
        let ghost pre = self.entries@;
        self.entries.push(CacheEntry { wrapped, key });
        self.total_bytes = self.total_bytes + size;
        proof {
            assert(forall|a: int| 0 <= a < pre.len() ==> #[trigger] self.entries@[a] == pre[a]);
            assert(self.entries@[pre.len() as int].wrapped@ == wrapped@);
            assert(self.entries@[pre.len() as int].key@ == key@);
            assert forall|i: int|
                0 <= i < self.entries@.len() implies self.provider.unwraps_to(
                (#[trigger] self.entries@[i]).wrapped@,
            ) == Some(self.entries@[i].key@) && self.entries@[i].key@.len() == DATA_KEY_LEN by {
                if i < pre.len() {
                    assert(pre_state.entries@[i] == pre[i]);
                }
            };
            assert forall|i: int, j: int|
                #![trigger self.entries@[i], self.entries@[j]]
                0 <= i < j < self.entries@.len() implies self.entries@[i].wrapped@
                != self.entries@[j].wrapped@ by {
                if j < pre.len() {
                    assert(pre_state.entries@[i] == pre[i]);
                    assert(pre_state.entries@[j] == pre[j]);
                } else {
                    assert(self.entries@[i] == pre[i]);
                    if pre[i].wrapped@ == wrapped@ {
                        assert(0 <= i < pre_state.spec_contents().len()
                            && (pre_state.spec_contents()[i]).0 == wrapped@);
                        assert(pre_state.spec_has(wrapped@));
                        assert(false);
                    }
                }
            };
            assert(cache_inv(*self));
        }
    }
}

impl<P: KeyProvider> KeyProvider for CachingKeyWrapper<P> {
    closed spec fn wf(&self) -> bool {
        cache_inv(*self)
    }

    open spec fn unwraps_to(&self, wrapped: Seq<u8>) -> Option<Seq<u8>> {
        self.spec_inner().unwraps_to(wrapped)
    }

    open spec fn always_available(&self) -> bool {
        self.spec_inner().always_available()
    }

    fn generate_and_wrap(&mut self) -> (r: Result<DataKey, ProviderError>) {
        proof {
            assert(cache_inv(*self));
        }
        let r = self.provider.generate_and_wrap();
        proof {
            assert(cache_inv(*self));
        }
        match r {
            Ok(dk) => {
                let wrapped_copy = slice_to_vec(dk.wrapped.as_slice());
                let key_copy = slice_to_vec(dk.key.as_slice());
                self.note_key(wrapped_copy, key_copy);
                Ok(dk)
            },
            Err(e) => Err(e),
        }
    }

    fn unwrap_key(&mut self, wrapped: &Vec<u8>) -> (r: Result<Vec<u8>, ProviderError>) {
        proof {
            assert(cache_inv(*self));
        }
        let n = self.entries.len();
        let mut i: usize = 0;
        while i < n
            invariant
                old(self).wf(),
                *self == *old(self),
                n == self.entries@.len(),
                0 <= i <= n,
            decreases n - i,
        {
            if bytes_eq(&self.entries[i].wrapped, wrapped) {
                proof {
                    assert(cache_inv(*self));
                    lemma_entries_bytes_remove(self.entries@, i as int);
                }
                let ghost pre = self.entries@;
                let e = self.entries.remove(i);
                let key_out = slice_to_vec(e.key.as_slice());
                proof {
                    lemma_entries_bytes_push(self.entries@, e);
                }
                self.entries.push(e);
                proof {
                    assert(forall|a: int|
                        0 <= a < self.entries@.len() - 1 ==> #[trigger] self.entries@[a] == (if a
                            < i {
                            pre[a]
                        } else {
                            pre[a + 1]
                        }));
                    assert(self.entries@.last() == pre[i as int]);
                    assert(cache_inv(*self));
                }
                return Ok(key_out);
            }
            i += 1;
        }
        let r = self.provider.unwrap_key(wrapped);
        proof {
            assert(cache_inv(*self));
        }
        match r {
            Ok(key) => {
                if wrapped.len() <= MAX_WRAPPED_KEY_LEN {
                    let wrapped_copy = slice_to_vec(wrapped.as_slice());
                    let key_copy = slice_to_vec(key.as_slice());
                    self.note_key(wrapped_copy, key_copy);
                }
                Ok(key)
            },
            Err(e) => Err(e),
        }
    }
}

/// The cache is transparent: every wrapped key stands for exactly the data
/// key it stands for under the provider the cache decorates, so enabling or
/// disabling the cache can change only how often the inner provider is
/// called, never which plaintext a record decrypts to.
pub proof fn lemma_cache_transparency<P: KeyProvider>(c: CachingKeyWrapper<P>, wrapped: Seq<u8>)
    ensures
        c.unwraps_to(wrapped) == c.spec_inner().unwraps_to(wrapped),
{
}

/// Transparency at the record level: a record recovers a plaintext through
/// the cache exactly when it recovers that plaintext through the provider
/// the cache decorates.
pub proof fn lemma_cache_transparent_recovery<P: KeyProvider>(
    c: CachingKeyWrapper<P>,
    r: crate::record::RecordModel,
    plaintext: Seq<u8>,
)
    ensures
        crate::cipher::record_recovers(c, r, plaintext) == crate::cipher::record_recovers(
            c.spec_inner(),
            r,
            plaintext,
        ),
{
}

/// The cache never accounts for more bytes than its configured budget: LRU
/// eviction keeps every insertion within bounds.
pub proof fn lemma_cache_within_budget<P: KeyProvider>(c: CachingKeyWrapper<P>)
    requires
        c.wf(),
    ensures
        c.spec_cached_bytes() <= c.spec_max_bytes(),
{
}

/// Compare two byte vectors.
fn bytes_eq(a: &Vec<u8>, b: &Vec<u8>) -> (r: bool)
    ensures
        r == (a@ == b@),
{
    if a.len() != b.len() {
        return false;
    }
    let mut i: usize = 0;
    while i < a.len()
        invariant
            a@.len() == b@.len(),
            0 <= i <= a@.len(),
            forall|j: int| 0 <= j < i ==> a@[j] == b@[j],
        decreases a@.len() - i,
    {
        if a[i] != b[i] {
            return false;
        }
        i += 1;
    }
    proof {
        assert(a@ =~= b@);
    }
    true
}

} // verus!
