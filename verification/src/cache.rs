//! The keyed client cache: one construction per account identifier.

use vstd::prelude::*;
use vstd::string::StrSliceExecFns;

use azure_storage::StorageCredentials;

use crate::azure::{acquire_default_credential, new_data_lake_client, storage_credentials_from};
use crate::errors::ConstructionError;
use crate::handle::AzureStorageBackend;
use crate::model::{ids_bounded, ids_injective, served_id, step_count, step_map};

verus! {

/// One cache slot: an account identifier and the handle every caller for
/// that identifier shares.
struct CacheEntry {
    account: String,
    handle: AzureStorageBackend,
}

/// The account-to-construction-number mapping a sequence of slots encodes.
spec fn entries_map(s: Seq<CacheEntry>) -> Map<Seq<char>, usize>
    decreases s.len(),
{
    if s.len() == 0 {
        Map::empty()
    } else {
        entries_map(s.drop_last()).insert(s.last().account@, s.last().handle.id())
    }
}

proof fn lemma_entries_map_domain(s: Seq<CacheEntry>, k: Seq<char>)
    ensures
        entries_map(s).contains_key(k) <==> exists|i: int|
            0 <= i < s.len() && (#[trigger] s[i]).account@ == k,
    decreases s.len(),
{
    if s.len() > 0 {
        lemma_entries_map_domain(s.drop_last(), k);
        assert(forall|i: int| 0 <= i < s.len() - 1 ==> s.drop_last()[i] == s[i]);
        if s.last().account@ == k {
            assert(s[s.len() - 1].account@ == k);
        }
    }
}

proof fn lemma_entries_map_at(s: Seq<CacheEntry>, i: int)
    requires
        0 <= i < s.len(),
        forall|p: int, q: int| 0 <= p < q < s.len() ==> s[p].account@ != s[q].account@,
    ensures
        entries_map(s).contains_key(s[i].account@),
        entries_map(s)[s[i].account@] == s[i].handle.id(),
    decreases s.len(),
{
    if i < s.len() - 1 {
        assert(forall|j: int| 0 <= j < s.len() - 1 ==> s.drop_last()[j] == s[j]);
        lemma_entries_map_at(s.drop_last(), i);
        assert(s[i].account@ != s[s.len() - 1].account@);
    }
}

/// The keyed client cache.
///
/// Maps account identifiers to shared client handles, constructing the
/// client for an identifier at most once. An entry, once made, is never
/// replaced or removed. Lookups and insertions require exclusive access;
/// [`crate::shared::SharedClientCache`] serializes concurrent callers
/// behind one process-wide lock.
///
/// The view of a cache is the map from account identifier to the
/// construction number of its client: handles for one identifier carry the
/// same number, handles for distinct identifiers carry distinct numbers.
pub struct ClientCache {
    entries: Vec<CacheEntry>,
}

impl View for ClientCache {
    type V = Map<Seq<char>, usize>;

    closed spec fn view(&self) -> Map<Seq<char>, usize> {
        entries_map(self.entries@)
    }
}

impl ClientCache {
    /// How many client constructions this cache has performed.
    pub closed spec fn constructions(&self) -> nat {
        self.entries@.len()
    }

    /// The cache's internal invariant: account identifiers are distinct and
    /// non-empty, every stored handle is well-formed, and the handle in
    /// slot `i` carries construction number `i`.
    pub closed spec fn wf(&self) -> bool {
        &&& forall|p: int, q: int|
            0 <= p < q < self.entries@.len() ==> self.entries@[p].account@
                != self.entries@[q].account@
        &&& forall|i: int|
            0 <= i < self.entries@.len() ==> (#[trigger] self.entries@[i]).handle.wf()
        &&& forall|i: int|
            0 <= i < self.entries@.len() ==> (#[trigger] self.entries@[i]).handle.id() == i
        &&& forall|i: int|
            0 <= i < self.entries@.len() ==> (#[trigger] self.entries@[i]).account@.len() > 0
    }

    /// An empty cache: no entries, no constructions performed.
    pub fn new() -> (c: Self)
        ensures
            c.wf(),
            c@ == Map::<Seq<char>, usize>::empty(),
            c.constructions() == 0,
    {
        ClientCache { entries: Vec::new() }
    }

    /// A well-formed cache satisfies the model invariants: every
    /// construction number in the map was drawn from the construction
    /// counter, distinct identifiers are on distinct numbers, and no cached
    /// identifier is empty.
    pub proof fn lemma_model_invariants(&self)
        requires
            self.wf(),
        ensures
            ids_bounded(self@, self.constructions()),
            ids_injective(self@),
            forall|k: Seq<char>| self@.contains_key(k) ==> k.len() > 0,
    {
        let s = self.entries@;
        assert forall|k: Seq<char>| self@.contains_key(k) implies (self@[k] < self.constructions()
            && k.len() > 0) by {
            lemma_entries_map_domain(s, k);
            let i = choose|i: int| 0 <= i < s.len() && (#[trigger] s[i]).account@ == k;
            lemma_entries_map_at(s, i);
        }
        assert forall|k1: Seq<char>, k2: Seq<char>|
            #![trigger self@[k1], self@[k2]]
            self@.contains_key(k1) && self@.contains_key(k2) && k1 != k2 implies self@[k1]
            != self@[k2] by {
            lemma_entries_map_domain(s, k1);
            lemma_entries_map_domain(s, k2);
            let i1 = choose|i: int| 0 <= i < s.len() && (#[trigger] s[i]).account@ == k1;
            let i2 = choose|i: int| 0 <= i < s.len() && (#[trigger] s[i]).account@ == k2;
            lemma_entries_map_at(s, i1);
            lemma_entries_map_at(s, i2);
        }
    }

    /// Key isolation: distinct account identifiers are never bound to the
    /// same construction number, so their handles never share an underlying
    /// client.
    pub proof fn lemma_key_isolation(&self, a: Seq<char>, b: Seq<char>)
        requires
            self.wf(),
            self@.contains_key(a),
            self@.contains_key(b),
            a != b,
        ensures
            self@[a] != self@[b],
    {
        self.lemma_model_invariants();
    }

    fn find_entry(&self, account: &String) -> (r: Option<usize>)
        requires
            self.wf(),
        ensures
            match r {
                Some(i) => {
                    &&& i < self.entries@.len()
                    &&& self.entries@[i as int].account@ == account@
                    &&& self@.contains_key(account@)
                    &&& self@[account@] == self.entries@[i as int].handle.id()
                },
                None => !self@.contains_key(account@),
            },
    {
        let n = self.entries.len();
        for i in 0..n
            invariant
                n == self.entries@.len(),
                self.wf(),
                forall|j: int| 0 <= j < i ==> (#[trigger] self.entries@[j]).account@ != account@,
        {
            if self.entries[i].account == *account {
                proof {
                    lemma_entries_map_at(self.entries@, i as int);
                }
                return Some(i);
            }
        }
        proof {
            lemma_entries_map_domain(self.entries@, account@);
        }
        None
    }

    /// Return a handle for `account` if one is cached, and nothing
    /// otherwise. A `Some` result performs no construction work.
    pub fn get(&self, account: &String) -> (r: Option<AzureStorageBackend>)
        requires
            self.wf(),
        ensures
            r is Some <==> self@.contains_key(account@),
            r matches Some(h) ==> h.wf() && h.id() == self@[account@],
    {
        match self.find_entry(account) {
            Some(i) => Some(self.entries[i].handle.duplicate()),
            None => None,
        }
    }

    /// Construct the client for a not-yet-cached account from acquired
    /// credentials, cache it under the next construction number, and return
    /// a handle to it. This is the only function that constructs a client;
    /// it always succeeds, and the number it stamps the new client with is
    /// fresh: no cached identifier is bound to it.
    pub fn install(&mut self, account: &String, credentials: StorageCredentials) -> (h:
        AzureStorageBackend)
        requires
            old(self).wf(),
            account@.len() > 0,
            !old(self)@.contains_key(account@),
        ensures
            final(self).wf(),
            h.wf(),
            h.id() == old(self).constructions(),
            final(self)@ == old(self)@.insert(account@, h.id()),
            final(self).constructions() == old(self).constructions() + 1,
            forall|k: Seq<char>| old(self)@.contains_key(k) ==> old(self)@[k] != h.id(),
    {
        proof {
            old(self).lemma_model_invariants();
        }
        let id = self.entries.len();
        let client = new_data_lake_client(account, credentials);
        let cached_handle = AzureStorageBackend::from_client(id, client);
        let h = cached_handle.duplicate();
        let ghost s0 = self.entries@;
        self.entries.push(CacheEntry { account: account.clone(), handle: cached_handle });
        proof {
            let s1 = self.entries@;
            assert(s1.drop_last() =~= s0);
            assert forall|p: int| 0 <= p < s0.len() implies (#[trigger] s0[p]).account@
                != account@ by {
                lemma_entries_map_at(s0, p);
            }
            assert(forall|j: int| 0 <= j < s0.len() ==> s1[j] == s0[j]);
        }
        h
    }

    /// Return the shared handle for `account`, constructing and caching the
    /// client first if `account` has not been served before.
    ///
    /// The contract pins the call down as one step of the model in
    /// [`crate::model`]: a cached identifier is served its existing client
    /// with no construction work; a new identifier gets exactly one
    /// construction; an empty identifier is malformed and is rejected; and
    /// a failed call leaves the cache exactly as it was, so a later call
    /// for the same identifier retries construction from scratch.
    ///
    /// Construction can fail only in credential acquisition, which depends
    /// on the ambient environment; for a cached identifier success is
    /// guaranteed.
    pub fn get_or_create(&mut self, account: &String) -> (r: Result<
        AzureStorageBackend,
        ConstructionError,
    >)
        requires
            old(self).wf(),
        ensures
            final(self).wf(),
            r is Err ==> *final(self) == *old(self),
            account@.len() == 0 ==> r == Err::<AzureStorageBackend, ConstructionError>(
                ConstructionError::EmptyAccountId,
            ),
            account@.len() > 0 && r is Err ==> r == Err::<AzureStorageBackend, ConstructionError>(
                ConstructionError::AuthenticationFailed,
            ),
            account@.len() > 0 && old(self)@.contains_key(account@) ==> r is Ok,
            r matches Ok(h) ==> ({
                &&& account@.len() > 0
                &&& h.wf()
                &&& h.id() == served_id(old(self)@, old(self).constructions(), account@)
                &&& final(self)@ == step_map(old(self)@, old(self).constructions(), account@)
                &&& final(self).constructions() == step_count(
                    old(self)@,
                    old(self).constructions(),
                    account@,
                )
                &&& final(self)@.contains_key(account@)
                &&& final(self)@[account@] == h.id()
            }),
    {
        if account.as_str().unicode_len() == 0 {
            return Err(ConstructionError::EmptyAccountId);
        }
        if let Some(i) = self.find_entry(account) {
            let h = self.entries[i].handle.duplicate();
            return Ok(h);
        }
        match acquire_default_credential() {
            Ok(credential) => {
                let storage_credentials = storage_credentials_from(credential);
                let h = self.install(account, storage_credentials);
                Ok(h)
            },
            Err(_) => Err(ConstructionError::AuthenticationFailed),
        }
    }

    /// How many client constructions this cache has performed so far.
    pub fn construction_count(&self) -> (r: usize)
        ensures
            r == self.constructions(),
    {
        self.entries.len()
    }
}

} // verus!
