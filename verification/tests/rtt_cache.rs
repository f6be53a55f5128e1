use std::time::Duration;

use hackline_gateway::rtt_cache::RttCache;

#[test]
fn miss_returns_none_for_unknown_key() {
    let c = RttCache::new(Duration::from_secs(1));
    assert!(c.get((1, 2)).is_none());
}

#[test]
fn hit_returns_stored_value_including_none() {
    let mut c = RttCache::new(Duration::from_secs(1));
    c.put((1, 2), Some(7));
    assert_eq!(c.get((1, 2)), Some(Some(7)));
    c.put((1, 3), None);
    assert_eq!(c.get((1, 3)), Some(None));
}

#[test]
fn expired_entry_reads_as_miss() {
    let mut c = RttCache::new(Duration::from_millis(1));
    c.put_at((1, 2), Some(7), 0);
    assert_eq!(c.get_at((1, 2), 1_000_000), Some(Some(7)));
    assert!(c.get_at((1, 2), 10_000_000).is_none());
}

#[test]
fn put_replaces_existing_entry() {
    let mut c = RttCache::new(Duration::from_secs(1));
    c.put((1, 2), Some(7));
    c.put((1, 2), Some(11));
    assert_eq!(c.get((1, 2)), Some(Some(11)));
}

#[test]
fn org_prefix_isolates_same_device_id_across_orgs() {
    let mut c = RttCache::new(Duration::from_secs(1));
    c.put((1, 42), Some(7));
    c.put((2, 42), Some(99));
    assert_eq!(c.get((1, 42)), Some(Some(7)));
    assert_eq!(c.get((2, 42)), Some(Some(99)));
}

#[test]
fn expired_entries_are_pruned_on_put() {
    let mut c = RttCache::new(Duration::from_millis(1));
    c.put_at((1, 1), Some(1), 0);
    c.put_at((1, 2), Some(2), 5_000_000);
    assert!(c.get_at((1, 1), 5_000_000).is_none());
    assert_eq!(c.get_at((1, 2), 5_000_000), Some(Some(2)));
}
