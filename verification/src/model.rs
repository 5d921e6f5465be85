//! The mathematical model of the client cache.
//!
//! A cache state is a map from account identifier to the construction
//! number of its client, together with a count of the constructions
//! performed so far. One successful request for a key either serves the
//! existing number or performs one construction; `step_map`, `step_count`
//! and `served_id` say exactly which. The laws below are stated over this
//! model; [`crate::cache::ClientCache::get_or_create`] promises in its
//! contract that each successful call is one such step.

use vstd::prelude::*;

verus! {

/// The mapping after one successful request for `key`: an existing entry is
/// left alone, a missing one is bound to the next construction number.
pub open spec fn step_map(m: Map<Seq<char>, usize>, n: nat, key: Seq<char>) -> Map<
    Seq<char>,
    usize,
> {
    if m.contains_key(key) {
        m
    } else {
        m.insert(key, n as usize)
    }
}

/// The construction count after one successful request for `key`.
pub open spec fn step_count(m: Map<Seq<char>, usize>, n: nat, key: Seq<char>) -> nat {
    if m.contains_key(key) {
        n
    } else {
        n + 1
    }
}

/// The construction number served by one successful request for `key`.
pub open spec fn served_id(m: Map<Seq<char>, usize>, n: nat, key: Seq<char>) -> usize {
    if m.contains_key(key) {
        m[key]
    } else {
        n as usize
    }
}

/// Every construction number in the map was drawn from the counter.
pub open spec fn ids_bounded(m: Map<Seq<char>, usize>, n: nat) -> bool {
    forall|k: Seq<char>| m.contains_key(k) ==> (#[trigger] m[k]) < n
}

/// Distinct keys are bound to distinct construction numbers: their handles
/// never share an underlying client.
pub open spec fn ids_injective(m: Map<Seq<char>, usize>) -> bool {
    forall|k1: Seq<char>, k2: Seq<char>|
        #![trigger m[k1], m[k2]]
        m.contains_key(k1) && m.contains_key(k2) && k1 != k2 ==> m[k1] != m[k2]
}

/// One request leaves the model invariants standing: construction numbers
/// stay below the counter, and distinct keys stay on distinct numbers.
pub proof fn lemma_step_preserves_invariants(m: Map<Seq<char>, usize>, n: nat, key: Seq<char>)
    requires
        ids_bounded(m, n),
        ids_injective(m),
        n <= usize::MAX,
    ensures
        ids_bounded(step_map(m, n, key), step_count(m, n, key)),
        ids_injective(step_map(m, n, key)),
{
}

/// Idempotent retrieval: a second request for a key already served changes
/// neither the mapping nor the construction count, and serves the same
/// construction number as the first.
pub proof fn lemma_idempotent_retrieval(m: Map<Seq<char>, usize>, n: nat, key: Seq<char>)
    ensures
        step_map(step_map(m, n, key), step_count(m, n, key), key) == step_map(m, n, key),
        step_count(step_map(m, n, key), step_count(m, n, key), key) == step_count(m, n, key),
        served_id(step_map(m, n, key), step_count(m, n, key), key) == served_id(m, n, key),
{
    assert(step_map(m, n, key).contains_key(key));
}

/// The cache state after `calls` successive successful requests for `key`,
/// as the pair of the final mapping and the final construction count.
pub open spec fn repeat_requests(
    m: Map<Seq<char>, usize>,
    n: nat,
    key: Seq<char>,
    calls: nat,
) -> (Map<Seq<char>, usize>, nat)
    decreases calls,
{
    if calls == 0 {
        (m, n)
    } else {
        let prev = repeat_requests(m, n, key, (calls - 1) as nat);
        (step_map(prev.0, prev.1, key), step_count(prev.0, prev.1, key))
    }
}

/// Single construction: any number of successive requests for one key has
/// the effect of the first alone. At most one construction happens, and the
/// last request serves the same construction number as the first. Requests
/// are serialized by the cache's exclusive lock, so this also covers
/// concurrent callers.
pub proof fn lemma_single_construction(m: Map<Seq<char>, usize>, n: nat, key: Seq<char>, calls: nat)
    requires
        1 <= calls,
    ensures
        repeat_requests(m, n, key, calls).0 == step_map(m, n, key),
        repeat_requests(m, n, key, calls).1 == step_count(m, n, key),
        served_id(
            repeat_requests(m, n, key, (calls - 1) as nat).0,
            repeat_requests(m, n, key, (calls - 1) as nat).1,
            key,
        ) == served_id(m, n, key),
    decreases calls,
{
    if calls == 1 {
        assert(repeat_requests(m, n, key, 0) == (m, n));
        assert(repeat_requests(m, n, key, 1).0 == step_map(m, n, key));
    } else {
        lemma_single_construction(m, n, key, (calls - 1) as nat);
        lemma_idempotent_retrieval(m, n, key);
        let prev = repeat_requests(m, n, key, (calls - 1) as nat);
        assert(repeat_requests(m, n, key, calls).0 == step_map(prev.0, prev.1, key));
        assert(repeat_requests(m, n, key, calls).1 == step_count(prev.0, prev.1, key));
    }
}

/// No eviction: a request never removes or replaces an existing entry.
/// Every cached identifier keeps its construction number, whatever key the
/// request was for.
pub proof fn lemma_entries_persist(m: Map<Seq<char>, usize>, n: nat, key: Seq<char>, k: Seq<char>)
    requires
        m.contains_key(k),
    ensures
        step_map(m, n, key).contains_key(k),
        step_map(m, n, key)[k] == m[k],
{
}

/// Independent keys: a request for one key serves another key's entry
/// untouched, and two distinct keys end on distinct construction numbers,
/// so their handles never share an underlying client.
pub proof fn lemma_independent_keys(m: Map<Seq<char>, usize>, n: nat, a: Seq<char>, b: Seq<char>)
    requires
        a != b,
        ids_bounded(m, n),
        ids_injective(m),
        n + 1 <= usize::MAX,
    ensures
        ({
            let m1 = step_map(m, n, a);
            let n1 = step_count(m, n, a);
            let m2 = step_map(m1, n1, b);
            &&& m2.contains_key(a)
            &&& m2.contains_key(b)
            &&& m2[a] == served_id(m, n, a)
            &&& m2[b] == served_id(m1, n1, b)
            &&& m2[a] != m2[b]
        }),
{
    lemma_step_preserves_invariants(m, n, a);
    lemma_step_preserves_invariants(step_map(m, n, a), step_count(m, n, a), b);
}

} // verus!
