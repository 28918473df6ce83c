use std::time::{Duration, Instant};

use ttl_cache_with_purging::cache::{Purgeable, TtlCache};

fn unexpired_instant() -> Instant {
    Instant::now()
        .checked_add(Duration::from_secs(86400))
        .unwrap()
}

fn expired_instant() -> Instant {
    Instant::now().checked_sub(Duration::from_secs(10)).unwrap()
}

#[test]
fn when_adding_an_active_entry_to_the_cache_then_it_is_present() {
    // Arrange
    let mut cache = TtlCache::new();
    let key = "key";
    let val = "val";

    // Act
    cache.insert(key, val, unexpired_instant());

    // Assert
    assert_eq!(*cache.get(key).unwrap(), val);
    assert_eq!(*cache.get_value_and_expiration(key).unwrap().0, val);
}

#[test]
fn given_an_entry_in_the_cache_when_adding_an_entry_with_the_same_key_then_the_value_is_overwritten(
) {
    // Arrange
    let mut cache = TtlCache::new();
    let key = "key";
    cache.insert(
        key,
        "val1",
        Instant::now()
            .checked_add(Duration::from_secs(1000))
            .unwrap(),
    );
    let value_to_overwrite_with = "val2";

    // Act
    cache.insert(key, value_to_overwrite_with, unexpired_instant());

    // Assert
    assert_eq!(*cache.get(key).unwrap(), value_to_overwrite_with);
}

#[test]
fn given_an_expired_entry_in_the_cache_when_retrieving_it_then_it_is_not_returned() {
    // Arrange
    let mut cache = TtlCache::new();
    let key = "key";
    cache.insert(key, "val", expired_instant());

    // Act
    let val = cache.get(key);
    let val_with_expiration = cache.get_value_and_expiration(key);

    // Assert
    assert!(val.is_none());
    assert!(val_with_expiration.is_none());
}

#[test]
fn given_a_mixture_of_expired_entries_and_active_entries_when_deleting_the_expired_entries_then_the_expired_entries_are_removed_and_the_active_entries_remain(
) {
    // Arrange
    let mut cache = TtlCache::new();
    let unexpired = "unexpired";
    let expired = "expired";
    cache.insert(unexpired, "val1", unexpired_instant());
    cache.insert(expired, "val2", expired_instant());

    // Act
    cache.purge_expired();

    // Assert
    assert!(cache.contains_key(unexpired));
    assert!(!cache.contains_key(expired));
}

#[test]
fn a_new_cache_is_empty() {
    let cache: TtlCache<String, u32> = TtlCache::new();
    assert_eq!(cache.len(), 0);
    assert!(!cache.contains_key("key"));
    assert!(cache.get("key").is_none());
    assert!(cache.get_value_and_expiration("key").is_none());

    let by_default: TtlCache<String, u32> = TtlCache::default();
    assert_eq!(by_default.len(), 0);
}

#[test]
fn a_key_that_was_never_inserted_is_absent() {
    let mut cache = TtlCache::new();
    cache.insert("present", 1u32, unexpired_instant());
    assert!(cache.get("missing").is_none());
    assert!(cache.get_value_and_expiration("missing").is_none());
    assert!(!cache.contains_key("missing"));
}

#[test]
fn an_entry_is_live_strictly_before_its_deadline_and_not_from_it_on() {
    let deadline = Instant::now() + Duration::from_secs(60);
    let tick = Duration::from_nanos(1);
    let mut cache = TtlCache::new();
    cache.insert(7u64, "val", deadline);

    assert_eq!(cache.get_at(&7, deadline - tick), Some(&"val"));
    assert_eq!(cache.get_at(&7, deadline - Duration::from_secs(59)), Some(&"val"));
    assert_eq!(cache.get_at(&7, deadline), None);
    assert_eq!(cache.get_at(&7, deadline + tick), None);
    assert_eq!(cache.get_at(&7, deadline + Duration::from_secs(3600)), None);

    assert_eq!(
        cache.get_value_and_expiration_at(&7, deadline - tick),
        Some((&"val", deadline))
    );
    assert_eq!(cache.get_value_and_expiration_at(&7, deadline), None);
    assert_eq!(cache.get_value_and_expiration_at(&7, deadline + tick), None);
}

#[test]
fn the_stored_deadline_is_returned_verbatim() {
    let deadline = unexpired_instant();
    let mut cache = TtlCache::new();
    cache.insert("key", "val", deadline);
    let (val, expires_at) = cache.get_value_and_expiration("key").unwrap();
    assert_eq!(*val, "val");
    assert_eq!(expires_at, deadline);
}

#[test]
fn a_second_insert_under_one_key_leaves_one_entry_with_the_second_value_and_deadline() {
    let now = Instant::now();
    let first = now + Duration::from_secs(10);
    let second = now + Duration::from_secs(20);
    let mut cache = TtlCache::new();
    cache.insert("key", "val1", first);
    cache.insert("key", "val2", second);

    assert_eq!(cache.len(), 1);
    assert_eq!(
        cache.get_value_and_expiration_at("key", now),
        Some((&"val2", second))
    );
    // live at an instant at which the first entry would have expired
    assert_eq!(cache.get_at("key", first), Some(&"val2"));
    assert_eq!(cache.get_at("key", second), None);
}

#[test]
fn an_expired_entry_is_overwritten_by_a_live_one() {
    let mut cache = TtlCache::new();
    cache.insert("key", "old", expired_instant());
    assert!(cache.get("key").is_none());
    cache.insert("key", "new", unexpired_instant());
    assert_eq!(cache.get("key"), Some(&"new"));
    assert_eq!(cache.len(), 1);
}

#[test]
fn inserting_touches_no_other_entry() {
    let mut cache = TtlCache::new();
    cache.insert("expired", 1u32, expired_instant());
    cache.insert("live", 2u32, unexpired_instant());
    cache.insert("third", 3u32, unexpired_instant());

    assert_eq!(cache.len(), 3);
    assert!(cache.contains_key("expired"));
    assert_eq!(cache.get("live"), Some(&2));
    assert_eq!(cache.get("third"), Some(&3));
}

#[test]
fn reading_an_expired_entry_does_not_remove_it() {
    let mut cache = TtlCache::new();
    cache.insert("key", "val", expired_instant());

    assert!(cache.get("key").is_none());
    assert!(cache.get_value_and_expiration("key").is_none());
    assert!(cache.contains_key("key"));
    assert_eq!(cache.len(), 1);
}

#[test]
fn an_overwrite_with_an_expired_entry_hides_the_key_and_a_purge_removes_it() {
    let mut cache = TtlCache::new();
    cache.insert(
        "k",
        "v1",
        Instant::now()
            .checked_add(Duration::from_secs(1000))
            .unwrap(),
    );
    assert_eq!(cache.get("k"), Some(&"v1"));

    cache.insert("k", "v2", expired_instant());
    assert_eq!(cache.get("k"), None);
    assert!(cache.contains_key("k"));

    cache.purge_expired();
    assert!(!cache.contains_key("k"));
    assert_eq!(cache.len(), 0);
}

#[test]
fn a_purge_keeps_the_live_entry_and_removes_the_expired_one() {
    let mut cache = TtlCache::new();
    cache.insert("a", 1u32, unexpired_instant());
    cache.insert("b", 2u32, expired_instant());

    cache.purge_expired();

    assert_eq!(cache.get("a"), Some(&1));
    assert_eq!(cache.get("b"), None);
    assert!(cache.contains_key("a"));
    assert!(!cache.contains_key("b"));
    assert_eq!(cache.len(), 1);
}

#[test]
fn a_purge_of_live_entries_removes_nothing() {
    let mut cache = TtlCache::new();
    cache.insert(1u8, "one", unexpired_instant());
    cache.insert(2u8, "two", unexpired_instant());

    cache.purge_expired();

    assert_eq!(cache.len(), 2);
    assert_eq!(cache.get(&1), Some(&"one"));
    assert_eq!(cache.get(&2), Some(&"two"));
}

#[test]
fn a_purge_of_an_empty_cache_leaves_it_empty() {
    let mut cache: TtlCache<u8, u8> = TtlCache::new();
    cache.purge_expired();
    assert_eq!(cache.len(), 0);
}

#[test]
fn a_purge_judges_every_entry_against_one_instant() {
    let now = Instant::now();
    let second = Duration::from_secs(1);
    let mut cache = TtlCache::new();
    cache.insert("before", 1u32, now - second);
    cache.insert("exactly", 2u32, now);
    cache.insert("after", 3u32, now + second);

    cache.purge_expired_at(now);

    assert!(!cache.contains_key("before"));
    assert!(!cache.contains_key("exactly"));
    assert!(cache.contains_key("after"));
    assert_eq!(cache.len(), 1);
    assert_eq!(
        cache.get_value_and_expiration_at("after", now),
        Some((&3, now + second))
    );
}

#[test]
fn a_later_purge_removes_what_an_earlier_one_kept() {
    let now = Instant::now();
    let second = Duration::from_secs(1);
    let mut cache = TtlCache::new();
    cache.insert("soon", 1u32, now + second);
    cache.insert("late", 2u32, now + 10 * second);

    cache.purge_expired_at(now);
    assert_eq!(cache.len(), 2);
    cache.purge_expired_at(now);
    assert_eq!(cache.len(), 2);

    cache.purge_expired_at(now + second);
    assert_eq!(cache.len(), 1);
    assert!(cache.contains_key("late"));
    assert!(!cache.contains_key("soon"));
}

#[test]
fn a_read_at_the_instant_of_a_purge_finds_the_same_before_and_after_it() {
    let now = Instant::now();
    let second = Duration::from_secs(1);
    let mut cache = TtlCache::new();
    cache.insert("gone", 1u32, now - second);
    cache.insert("kept", 2u32, now + second);

    let gone_before = cache.get_at("gone", now).copied();
    let kept_before = cache.get_at("kept", now).copied();
    cache.purge_expired_at(now);

    assert_eq!(cache.get_at("gone", now).copied(), gone_before);
    assert_eq!(cache.get_at("kept", now).copied(), kept_before);
    assert_eq!(gone_before, None);
    assert_eq!(kept_before, Some(2));
}

#[test]
fn owned_keys_are_found_by_their_borrowed_form() {
    let mut cache: TtlCache<String, Vec<u8>> = TtlCache::new();
    cache.insert(String::from("key"), vec![1, 2, 3], unexpired_instant());
    assert_eq!(cache.get("key"), Some(&vec![1, 2, 3]));
    assert!(cache.contains_key("key"));
    assert!(!cache.contains_key("other"));
}
