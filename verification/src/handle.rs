//! Caller-facing handles to cached Data Lake clients.

use vstd::prelude::*;
use vstd::rwlock::RwLock;

use azure_storage_datalake::clients::DataLakeClient;
use std::sync::Arc;

verus! {

/// A constructed client together with the number the cache stamped it with.
///
/// The number identifies one construction: exactly the handles that share
/// one underlying client carry the same number.
pub struct CachedClient {
    /// The construction number the cache assigned to this client.
    pub id: usize,
    /// The authenticated connection object itself.
    pub client: DataLakeClient,
}

/// The lock predicate of a handle's client lock: the stored client is the
/// one the handle was issued for.
pub open spec fn holds_client(id: usize) -> spec_fn(CachedClient) -> bool {
    |c: CachedClient| c.id == id
}

/// A cloneable, caller-facing reference to one cached client.
///
/// All handles issued for one account identifier refer to the same
/// underlying client; [`Self::with_shared_access`] grants scoped shared
/// access to it. Duplicating a handle is a reference-count increment and
/// never constructs a client.
pub struct AzureStorageBackend {
    id: usize,
    client: Arc<RwLock<CachedClient, spec_fn(CachedClient) -> bool>>,
}

impl AzureStorageBackend {
    /// The construction number of the client this handle refers to. Two
    /// handles refer to the same underlying client exactly when their
    /// numbers agree.
    pub closed spec fn id(&self) -> usize {
        self.id
    }

    /// The handle's lock guards precisely the client the handle was issued
    /// for.
    pub closed spec fn wf(&self) -> bool {
        self.client.pred() == holds_client(self.id)
    }

    /// Wrap a freshly constructed client, stamped `id`, in a new handle.
    pub(crate) fn from_client(id: usize, client: DataLakeClient) -> (h: Self)
        ensures
            h.id() == id,
            h.wf(),
    {
        let lock = RwLock::new(CachedClient { id, client }, Ghost(holds_client(id)));
        AzureStorageBackend { id, client: Arc::new(lock) }
    }

    /// The construction number of the client this handle refers to.
    pub fn client_id(&self) -> (r: usize)
        ensures
            r == self.id(),
    {
        self.id
    }

    /// Issue another handle to the same underlying client. This increments a
    /// reference count; it never re-invokes the client factory.
    pub fn duplicate(&self) -> (h: Self)
        requires
            self.wf(),
        ensures
            h.wf(),
            h.id() == self.id(),
    {
        AzureStorageBackend { id: self.id, client: clone_client_lock(&self.client) }
    }

    /// Run `operation` with shared access to the underlying client. The
    /// access is scoped: the client's lock is taken for reading before
    /// `operation` runs and released as soon as it returns.
    pub fn with_shared_access<R, F: Fn(&DataLakeClient) -> R>(&self, operation: F) -> (r: R)
        requires
            self.wf(),
            forall|c: &DataLakeClient| #[trigger] call_requires(operation, (c,)),
        ensures
            exists|c: &DataLakeClient| call_ensures(operation, (c,), r),
    {
        let read_handle = self.client.acquire_read();
        let cached = read_handle.borrow();
        let r = operation(&cached.client);
        read_handle.release_read();
        r
    }
}

/// Relies on `alloc::sync::Arc::clone` (std): the clone refers to the same
/// allocation and is equal to the original.
#[verifier::external_body]
fn clone_client_lock(
    a: &Arc<RwLock<CachedClient, spec_fn(CachedClient) -> bool>>,
) -> (r: Arc<RwLock<CachedClient, spec_fn(CachedClient) -> bool>>)
    ensures
        r == *a,
{
    Arc::clone(a)
}

} // verus!
