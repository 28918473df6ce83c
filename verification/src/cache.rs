//! The cache: a map from keys to values with deadlines.
//!
//! A [`TtlCache`] is modelled by its view, a `Map` from keys to entries. An
//! entry is *live* at an instant when its deadline lies strictly after it.
//! Reads return live entries only and change nothing; a purge removes every
//! entry that is not live. The reading of the clock is kept apart from the
//! logic: each operation that depends on the time has a form that takes the
//! instant of observation as an argument, and a form that reads the clock and
//! hands it on.
use crate::clock::{current_instant, instant_is_after, is_after};
use std::borrow::Borrow;
use std::collections::HashMap;
use std::hash::Hash;
use std::time::Instant;
use vstd::prelude::*;
use vstd::std_specs::hash::{
    contains_borrowed_key, maps_borrowed_key_to_value, obeys_key_model,
};

verus! {

broadcast use vstd::std_specs::hash::group_hash_axioms;

/// What the cache holds under one key: a value and the instant at which it
/// stops being returned.
pub struct CacheEntry<V> {
    pub val: V,
    pub expires_at: Instant,
}

impl<V> CacheEntry<V> {
    /// An entry is live at `now` when its deadline lies strictly after `now`:
    /// one that expires exactly at `now` is no longer live.
    pub open spec fn live_at(self, now: Instant) -> bool {
        is_after(self.expires_at, now)
    }

    /// Whether the entry is live at `now`.
    pub fn is_live_at(&self, now: Instant) -> (live: bool)
        ensures
            live == self.live_at(now),
    {
        instant_is_after(self.expires_at, now)
    }
}

/// What a read of `key` at `now` observes in `m`: the entry under `key` if
/// there is one and it is live, nothing otherwise.
pub open spec fn lookup_at<K, V>(m: Map<K, CacheEntry<V>>, key: K, now: Instant) -> Option<
    CacheEntry<V>,
> {
    if m.contains_key(key) && m[key].live_at(now) {
        Some(m[key])
    } else {
        None
    }
}

/// What is left of `m` after a purge at `now`: the entries that are live at
/// `now`, each unchanged.
pub open spec fn purged_at<K, V>(m: Map<K, CacheEntry<V>>, now: Instant) -> Map<
    K,
    CacheEntry<V>,
> {
    Map::new(|k: K| m.contains_key(k) && m[k].live_at(now), |k: K| m[k])
}

/// Whether `found` is what a read at `now` observes in `m` under a key given
/// in borrowed form: a live entry that `m` maps the key to, or nothing where
/// `m` has no entry for the key or maps it to an entry that is not live.
pub open spec fn observes<K, V, Q: ?Sized>(
    m: Map<K, CacheEntry<V>>,
    key: &Q,
    now: Instant,
    found: Option<CacheEntry<V>>,
) -> bool {
    match found {
        Some(e) => maps_borrowed_key_to_value(m, key, e) && e.live_at(now),
        None => !contains_borrowed_key(m, key) || exists|e: CacheEntry<V>|
            #[trigger] maps_borrowed_key_to_value(m, key, e) && !e.live_at(now),
    }
}

/// Whether `found` is the value of what a read at `now` observes in `m` under
/// a key given in borrowed form.
pub open spec fn observes_value<K, V, Q: ?Sized>(
    m: Map<K, CacheEntry<V>>,
    key: &Q,
    now: Instant,
    found: Option<V>,
) -> bool {
    match found {
        Some(val) => exists|e: CacheEntry<V>|
            e.val == val && #[trigger] observes(m, key, now, Some(e)),
        None => observes(m, key, now, None),
    }
}

/// The value that a read handed out, if any.
pub open spec fn found_value<V>(found: Option<&V>) -> Option<V> {
    match found {
        Some(val) => Some(*val),
        None => None,
    }
}

/// The entry that a read handed out as a value and its deadline, if any.
pub open spec fn found_entry<V>(found: Option<(&V, Instant)>) -> Option<CacheEntry<V>> {
    match found {
        Some((val, expires_at)) => Some(CacheEntry { val: *val, expires_at }),
        None => None,
    }
}

/// An instance of a cache.
pub struct TtlCache<K, V> {
    map: HashMap<K, CacheEntry<V>>,
}

impl<K, V> View for TtlCache<K, V> {
    type V = Map<K, CacheEntry<V>>;

    /// The entries that the cache holds, live or not.
    closed spec fn view(&self) -> Map<K, CacheEntry<V>> {
        self.map@
    }
}

/// `HashMap::retain`, with the test "the entry is live at `now`": it keeps the
/// pairs for which the test holds, untouched, and removes all others.
#[verifier::external_body]
fn retain_live<K, V>(map: &mut HashMap<K, CacheEntry<V>>, now: Instant)
    ensures
        obeys_key_model::<K>() ==> final(map)@ == purged_at(old(map)@, now),
{
    map.retain(|_k, e| e.is_live_at(now))
}

impl<K, V> TtlCache<K, V> where K: Eq + Hash {
    /// Creates a new cache instance, with no entries.
    pub fn new() -> (cache: Self)
        ensures
            cache@ == Map::<K, CacheEntry<V>>::empty(),
    {
        TtlCache { map: HashMap::new() }
    }

    /// Adds a new value to the cache that will expire at the specified instant.
    ///
    /// An entry already under `key` is replaced, live or not; no other entry
    /// is touched.
    pub fn insert(&mut self, key: K, val: V, expires_at: Instant)
        ensures
            obeys_key_model::<K>() ==> final(self)@ == old(self)@.insert(
                key,
                (CacheEntry { val, expires_at }),
            ),
    {
        self.map.insert(key, CacheEntry { val, expires_at });
    }

    /// Retrieves from the cache the value that is unexpired at `now`.
    ///
    /// Expired entries will return `None`.
    pub fn get_at<Q>(&self, key: &Q, now: Instant) -> (found: Option<&V>) where
        K: Borrow<Q>,
        Q: Hash + Eq + ?Sized,

        ensures
            obeys_key_model::<K>() ==> observes_value(
                self@,
                key,
                now,
                found_value(found),
            ),
    {
        match self.get_value_and_expiration_at(key, now) {
            Some((val, expires_at)) => {
                // the entry found is the witness for the value handed out
                assert(obeys_key_model::<K>() ==> observes(
                    self@,
                    key,
                    now,
                    Some(CacheEntry { val: *val, expires_at }),
                ));
                Some(val)
            },
            None => None,
        }
    }

    /// Retrieves from the cache the value that is unexpired at `now`, along
    /// with the expiration.
    ///
    /// Expired entries will return `None`.
    pub fn get_value_and_expiration_at<Q>(&self, key: &Q, now: Instant) -> (found: Option<
        (&V, Instant),
    >) where K: Borrow<Q>, Q: Hash + Eq + ?Sized
        ensures
            obeys_key_model::<K>() ==> observes(
                self@,
                key,
                now,
                found_entry(found),
            ),
    {
        match self.map.get(key) {
            Some(entry) => {
                if entry.is_live_at(now) {
                    Some((&entry.val, entry.expires_at))
                } else {
                    None
                }
            },
            None => None,
        }
    }

    /// Retrieves an unexpired value from the cache.
    ///
    /// Expired entries will return `None`. The clock is read once; the result
    /// is what [`TtlCache::get_at`] gives for the instant read.
    pub fn get<Q>(&self, key: &Q) -> (found: Option<&V>) where K: Borrow<Q>, Q: Hash + Eq + ?Sized
        ensures
            obeys_key_model::<K>() ==> exists|now: Instant| #[trigger]
                observes_value(
                    self@,
                    key,
                    now,
                    found_value(found),
                ),
    {
        let now = current_instant();
        self.get_at(key, now)
    }

    /// Retrieves an unexpired value from the cache, along with the expiration.
    ///
    /// Expired entries will return `None`. The clock is read once; the result
    /// is what [`TtlCache::get_value_and_expiration_at`] gives for the instant
    /// read.
    pub fn get_value_and_expiration<Q>(&self, key: &Q) -> (found: Option<(&V, Instant)>) where
        K: Borrow<Q>,
        Q: Hash + Eq + ?Sized,

        ensures
            obeys_key_model::<K>() ==> exists|now: Instant| #[trigger]
                observes(
                    self@,
                    key,
                    now,
                    found_entry(found),
                ),
    {
        let now = current_instant();
        self.get_value_and_expiration_at(key, now)
    }

    /// Whether the cache holds an entry under `key`, live or not.
    pub fn contains_key<Q>(&self, key: &Q) -> (held: bool) where
        K: Borrow<Q>,
        Q: Hash + Eq + ?Sized,

        ensures
            obeys_key_model::<K>() ==> held == contains_borrowed_key(self@, key),
    {
        self.map.contains_key(key)
    }

    /// The number of entries that the cache holds, live or not.
    pub fn len(&self) -> (n: usize)
        ensures
            obeys_key_model::<K>() ==> n == self@.len(),
            self@.dom().finite(),
    {
        broadcast use vstd::std_specs::hash::axiom_hashmap_view_finite_dom;

        self.map.len()
    }
}

impl<K, V> TtlCache<K, V> {
    /// Removes from the cache every entry that is not live at `now`, and no
    /// other. All entries are judged against the one instant `now`.
    pub fn purge_expired_at(&mut self, now: Instant)
        ensures
            obeys_key_model::<K>() ==> final(self)@ == purged_at(old(self)@, now),
    {
        retain_live(&mut self.map, now);
    }
}

impl<K, V> Default for TtlCache<K, V> {
    /// The empty cache.
    fn default() -> (cache: Self)
        ensures
            cache@ == Map::<K, CacheEntry<V>>::empty(),
    {
        TtlCache { map: HashMap::new() }
    }
}

/// Operations relating to purging expired entries.
///
/// The periodic purge knows its target through this trait alone: it needs
/// neither keys nor values.
pub trait Purgeable {
    /// Purges expired entries from the cache.
    fn purge_expired(&mut self);
}

impl<K, V> Purgeable for TtlCache<K, V> {
    /// Reads the clock once and removes every entry that is not live at the
    /// instant read, as [`TtlCache::purge_expired_at`] does.
    fn purge_expired(&mut self)
        ensures
            obeys_key_model::<K>() ==> exists|now: Instant|
                final(self)@ == #[trigger] purged_at(old(self)@, now),
    {
        let now = current_instant();
        self.purge_expired_at(now);
    }
}

} // verus!
