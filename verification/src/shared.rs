//! A client cache behind one process-wide exclusive lock.

use vstd::prelude::*;
use vstd::rwlock::RwLock;

use crate::cache::ClientCache;
use crate::errors::ConstructionError;
use crate::handle::AzureStorageBackend;

verus! {

/// The lock predicate of the shared cache: only well-formed cache states
/// are ever stored, so the invariant of [`ClientCache`] holds whenever the
/// lock is free.
pub open spec fn cache_wf() -> spec_fn(ClientCache) -> bool {
    |c: ClientCache| c.wf()
}

/// A [`ClientCache`] shared between concurrent callers.
///
/// One exclusive lock serializes every lookup and insertion, including the
/// whole construction sequence for a new entry: no two callers can observe
/// "absent" for the same identifier at once, which gives the at-most-one
/// construction guarantee under unbounded concurrency. Callers requesting a
/// brand-new account while another construction is in flight wait behind
/// the same lock: simplicity is preferred here over maximum parallelism.
/// Per-key locking would let distinct accounts construct concurrently and
/// is a sound alternative as long as the at-most-once guarantee per key is
/// kept.
pub struct SharedClientCache {
    lock: RwLock<ClientCache, spec_fn(ClientCache) -> bool>,
}

impl SharedClientCache {
    /// The shared cache's lock admits exactly the well-formed cache states.
    pub closed spec fn wf(&self) -> bool {
        self.lock.pred() == cache_wf()
    }

    /// A fresh, empty shared cache.
    pub fn new() -> (c: Self)
        ensures
            c.wf(),
    {
        let cache = ClientCache::new();
        assert(cache_wf()(cache));
        SharedClientCache { lock: RwLock::new(cache, Ghost(cache_wf())) }
    }

    /// Return the shared handle for `account`, constructing and caching the
    /// client first if `account` has not been served before.
    ///
    /// The whole check-and-insert runs under the cache's exclusive lock;
    /// see [`ClientCache::get_or_create`] for the exact step the cache
    /// state takes. The state itself is hidden behind the lock, so this
    /// contract promises what holds of the result in every state: a
    /// returned handle is well-formed and was served for a non-empty
    /// identifier, an empty identifier is rejected as malformed, and that
    /// rejection is the only error a non-empty identifier never sees — any
    /// other failure is a failed credential acquisition.
    pub fn get_or_create(&self, account: &String) -> (r: Result<
        AzureStorageBackend,
        ConstructionError,
    >)
        requires
            self.wf(),
        ensures
            r matches Ok(h) ==> h.wf() && account@.len() > 0,
            account@.len() == 0 ==> r == Err::<AzureStorageBackend, ConstructionError>(
                ConstructionError::EmptyAccountId,
            ),
            account@.len() > 0 && r is Err ==> r == Err::<AzureStorageBackend, ConstructionError>(
                ConstructionError::AuthenticationFailed,
            ),
    {
        let (mut cache, write_handle) = self.lock.acquire_write();
        let r = cache.get_or_create(account);
        proof {
            assert(cache_wf()(cache));
        }
        write_handle.release_write(cache);
        r
    }

    /// How many client constructions this cache has performed so far. The
    /// count is read under the lock and may be stale by the time it is
    /// observed.
    pub fn construction_count(&self) -> (r: usize)
        requires
            self.wf(),
    {
        let read_handle = self.lock.acquire_read();
        let count = read_handle.borrow().construction_count();
        read_handle.release_read();
        count
    }
}

} // verus!
