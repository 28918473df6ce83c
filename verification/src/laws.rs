//! Laws of the cache, over its model.
//!
//! The contracts of [`TtlCache`](crate::cache::TtlCache) speak of the cache's
//! view and of [`lookup_at`], [`purged_at`] and [`observes`]. The proof
//! functions here state what follows for a caller: where the boundary of
//! liveness lies, what a second insert leaves of the first, what a purge
//! removes, and that reads see the same with or without a purge.
use crate::cache::{lookup_at, observes, observes_value, purged_at, CacheEntry};
use crate::clock::instant_position;
use std::time::Instant;
use vstd::prelude::*;
use vstd::std_specs::hash::{contains_borrowed_key, maps_borrowed_key_to_value};

verus! {

broadcast use vstd::std_specs::hash::group_hash_axioms;

/// For a key given in its own type, what a read observes is exactly
/// `lookup_at`: the entry under the key if it is live, nothing otherwise.
pub proof fn law_read_by_own_key<K, V>(
    m: Map<K, CacheEntry<V>>,
    key: &K,
    now: Instant,
    found: Option<CacheEntry<V>>,
)
    ensures
        observes(m, key, now, found) <==> found == lookup_at(m, *key, now),
        contains_borrowed_key(m, key) <==> m.contains_key(*key),
{
    if m.contains_key(*key) {
        assert(maps_borrowed_key_to_value(m, key, m[*key]));
    }
}

/// For a key given in its own type, the value that a read observes is that of
/// `lookup_at`.
pub proof fn law_read_value_by_own_key<K, V>(
    m: Map<K, CacheEntry<V>>,
    key: &K,
    now: Instant,
    found: Option<V>,
)
    ensures
        observes_value(m, key, now, found) <==> found == match lookup_at(m, *key, now) {
            Some(e) => Some(e.val),
            None => None,
        },
{
    law_read_by_own_key(m, key, now, None);
    match found {
        Some(val) => {
            if m.contains_key(*key) {
                law_read_by_own_key(m, key, now, Some(m[*key]));
            }
            assert forall|e: CacheEntry<V>| #[trigger]
                observes(m, key, now, Some(e)) implies Some(e) == lookup_at(m, *key, now) by {
                law_read_by_own_key(m, key, now, Some(e));
            }
        },
        None => {},
    }
}

/// The boundary of liveness: an entry inserted with the deadline `expires_at`
/// is read back at every instant before the deadline, and at no instant from
/// the deadline on. At the deadline itself it is already gone.
pub proof fn law_liveness_boundary<K, V>(
    m: Map<K, CacheEntry<V>>,
    key: K,
    val: V,
    expires_at: Instant,
    now: Instant,
)
    ensures
        instant_position(now) < instant_position(expires_at) ==> lookup_at(
            m.insert(key, (CacheEntry { val, expires_at })),
            key,
            now,
        ) == Some(CacheEntry { val, expires_at }),
        instant_position(now) >= instant_position(expires_at) ==> lookup_at(
            m.insert(key, (CacheEntry { val, expires_at })),
            key,
            now,
        ) == None::<CacheEntry<V>>,
{
}

/// Inserting leaves the reads of every other key as they were.
pub proof fn law_insert_leaves_other_keys<K, V>(
    m: Map<K, CacheEntry<V>>,
    key: K,
    entry: CacheEntry<V>,
    other: K,
    now: Instant,
)
    requires
        other != key,
    ensures
        m.insert(key, entry).contains_key(other) == m.contains_key(other),
        lookup_at(m.insert(key, entry), other, now) == lookup_at(m, other, now),
{
}

/// Overwriting: after two inserts under one key the cache is as if only the
/// second had been made. One entry stands under the key, with the second
/// value and deadline, whether the first was live or not.
pub proof fn law_insert_overwrites<K, V>(
    m: Map<K, CacheEntry<V>>,
    key: K,
    first: CacheEntry<V>,
    second: CacheEntry<V>,
    now: Instant,
)
    ensures
        m.insert(key, first).insert(key, second) == m.insert(key, second),
        m.insert(key, first).insert(key, second).dom() == m.dom().insert(key),
        m.insert(key, first).insert(key, second)[key] == second,
        lookup_at(m.insert(key, first).insert(key, second), key, now) == if second.live_at(now) {
            Some(second)
        } else {
            None
        },
{
    assert(m.insert(key, first).insert(key, second) =~= m.insert(key, second));
    assert(m.insert(key, second).dom() =~= m.dom().insert(key));
}

/// What a purge does, key by key: an entry that remains was there before,
/// unchanged, and was live at the instant of the purge; an entry that is gone
/// was not live at that instant; so no live entry is ever removed.
pub proof fn law_purge_keeps_exactly_the_live<K, V>(
    m: Map<K, CacheEntry<V>>,
    now: Instant,
    key: K,
)
    ensures
        purged_at(m, now).contains_key(key) ==> m.contains_key(key) && purged_at(m, now)[key]
            == m[key] && m[key].live_at(now),
        m.contains_key(key) && !purged_at(m, now).contains_key(key) ==> !m[key].live_at(now),
        m.contains_key(key) && m[key].live_at(now) ==> purged_at(m, now).contains_key(key),
        !m.contains_key(key) ==> !purged_at(m, now).contains_key(key),
{
}

/// A purge of a cache whose entries are all live removes nothing, and only
/// such a purge removes nothing.
pub proof fn law_purge_of_live_entries_is_identity<K, V>(m: Map<K, CacheEntry<V>>, now: Instant)
    ensures
        purged_at(m, now) == m <==> (forall|k: K| m.contains_key(k) ==> (#[trigger] m[k]).live_at(now)),
{
    if forall|k: K| m.contains_key(k) ==> (#[trigger] m[k]).live_at(now) {
        assert(purged_at(m, now) =~= m);
    }
    if purged_at(m, now) == m {
        assert forall|k: K| m.contains_key(k) implies (#[trigger] m[k]).live_at(now) by {
            assert(purged_at(m, now).contains_key(k));
        }
    }
}

/// Reads do not depend on purges: an entry that is not live is absent to a
/// read while the cache still holds it, a purge at that instant removes it,
/// and a read at the instant of a purge finds the same before and after it.
pub proof fn law_purge_is_invisible_to_reads<K, V>(
    m: Map<K, CacheEntry<V>>,
    now: Instant,
    key: K,
)
    ensures
        lookup_at(purged_at(m, now), key, now) == lookup_at(m, key, now),
        m.contains_key(key) && !m[key].live_at(now) ==> lookup_at(m, key, now) == None::<
            CacheEntry<V>,
        > && !purged_at(m, now).contains_key(key),
{
}

/// A purge never adds an entry, and never leaves more entries than it found.
pub proof fn law_purge_shrinks<K, V>(m: Map<K, CacheEntry<V>>, now: Instant)
    requires
        m.dom().finite(),
    ensures
        purged_at(m, now).dom().subset_of(m.dom()),
        purged_at(m, now).dom().finite(),
        purged_at(m, now).len() <= m.len(),
{
    vstd::set_lib::lemma_len_subset(purged_at(m, now).dom(), m.dom());
}

/// Purging is idempotent, and a later purge makes an earlier one redundant:
/// purging at `earlier` and then at `later` leaves what one purge at `later`
/// leaves.
pub proof fn law_later_purge_subsumes_earlier<K, V>(
    m: Map<K, CacheEntry<V>>,
    earlier: Instant,
    later: Instant,
)
    requires
        instant_position(earlier) <= instant_position(later),
    ensures
        purged_at(purged_at(m, earlier), later) == purged_at(m, later),
        purged_at(purged_at(m, later), later) == purged_at(m, later),
{
    assert(purged_at(purged_at(m, earlier), later) =~= purged_at(m, later));
    assert(purged_at(purged_at(m, later), later) =~= purged_at(m, later));
}

} // verus!
