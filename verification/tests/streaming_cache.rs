use resource_streaming::streaming_cache::{CacheConfig, EvictionPolicy, StreamingCache};

fn cache(max_size: u64, eviction_policy: EvictionPolicy) -> StreamingCache {
    StreamingCache::new(CacheConfig { max_size, eviction_policy })
}

fn id(name: &str) -> String {
    name.to_string()
}

#[test]
fn new_cache_is_empty() {
    let c = cache(100, EvictionPolicy::LeastRecentlyUsed);
    assert_eq!(c.current_size(), 0);
    assert_eq!(c.max_size(), 100);
    assert_eq!(c.get_memory_usage(), 0);
    assert_eq!(c.get_hit_rate(), 0);
    assert_eq!(c.usage_percentage(), 0);
    assert!(!c.contains(&id("a")));
    assert!(c.select_victim().is_none());
}

#[test]
fn lru_eviction_drops_the_older_entry() {
    let mut c = cache(100, EvictionPolicy::LeastRecentlyUsed);
    c.insert(id("A"), vec![1u8; 60]);
    c.insert(id("B"), vec![2u8; 60]);
    assert!(!c.contains(&id("A")));
    assert!(c.contains(&id("B")));
    assert_eq!(c.current_size(), 60);
    assert_eq!(c.get_detailed_stats().total_entries, 1);
}

#[test]
fn lru_eviction_at_given_times() {
    let mut c = cache(100, EvictionPolicy::LeastRecentlyUsed);
    c.insert_at(id("A"), vec![1u8; 40], 10);
    c.insert_at(id("B"), vec![2u8; 40], 20);
    // A is touched later than B, so B is now the least recently used.
    assert_eq!(c.get_at(&id("A"), 30).map(|d| d.len()), Some(40));
    assert_eq!(c.select_lru_victim(), Some(id("B")));
    c.insert_at(id("C"), vec![3u8; 40], 40);
    assert!(c.contains(&id("A")));
    assert!(!c.contains(&id("B")));
    assert!(c.contains(&id("C")));
    assert_eq!(c.current_size(), 80);
}

#[test]
fn lfu_eviction_drops_the_least_used_entry() {
    let mut c = cache(100, EvictionPolicy::LeastFrequentlyUsed);
    c.insert_at(id("A"), vec![0u8; 50], 1);
    c.insert_at(id("B"), vec![0u8; 50], 2);
    assert!(c.get_at(&id("B"), 3).is_some());
    assert!(c.get_at(&id("B"), 4).is_some());
    assert!(c.get_at(&id("A"), 5).is_some());
    assert_eq!(c.select_lfu_victim(), Some(id("A")));
    assert_eq!(c.select_victim(), Some(id("A")));
    c.insert_at(id("C"), vec![0u8; 10], 6);
    assert!(!c.contains(&id("A")));
    assert!(c.contains(&id("B")));
    assert!(c.contains(&id("C")));
    assert_eq!(c.current_size(), 60);
}

#[test]
fn priority_eviction_drops_the_lowest_priority() {
    let mut c = cache(100, EvictionPolicy::Priority);
    c.insert_at(id("A"), vec![0u8; 30], 1);
    c.insert_at(id("B"), vec![0u8; 30], 2);
    c.insert_at(id("C"), vec![0u8; 30], 3);
    c.set_priority(&id("A"), 9);
    c.set_priority(&id("B"), 1);
    c.set_priority(&id("missing"), 0);
    assert_eq!(c.select_priority_victim(), Some(id("B")));
    c.insert_at(id("D"), vec![0u8; 30], 4);
    assert!(c.contains(&id("A")));
    assert!(!c.contains(&id("B")));
    assert!(c.contains(&id("C")));
    assert!(c.contains(&id("D")));
}

#[test]
fn ties_go_to_the_entry_that_came_first() {
    let mut c = cache(100, EvictionPolicy::Priority);
    c.insert_at(id("first"), vec![0u8; 10], 7);
    c.insert_at(id("second"), vec![0u8; 10], 7);
    assert_eq!(c.select_priority_victim(), Some(id("first")));
    assert_eq!(c.select_lru_victim(), Some(id("first")));
    assert_eq!(c.select_lfu_victim(), Some(id("first")));
}

#[test]
fn eviction_goes_on_until_the_payload_fits() {
    let mut c = cache(100, EvictionPolicy::LeastRecentlyUsed);
    c.insert_at(id("A"), vec![0u8; 30], 1);
    c.insert_at(id("B"), vec![0u8; 30], 2);
    c.insert_at(id("C"), vec![0u8; 30], 3);
    c.insert_at(id("D"), vec![0u8; 90], 4);
    assert!(!c.contains(&id("A")));
    assert!(!c.contains(&id("B")));
    assert!(!c.contains(&id("C")));
    assert!(c.contains(&id("D")));
    assert_eq!(c.current_size(), 90);
}

#[test]
fn make_space_for_evicts_only_what_is_needed() {
    let mut c = cache(100, EvictionPolicy::LeastRecentlyUsed);
    c.insert_at(id("A"), vec![0u8; 30], 1);
    c.insert_at(id("B"), vec![0u8; 30], 2);
    c.insert_at(id("C"), vec![0u8; 30], 3);
    c.make_space_for(10);
    assert_eq!(c.current_size(), 90);
    c.make_space_for(40);
    assert!(!c.contains(&id("A")));
    assert!(c.contains(&id("B")));
    assert_eq!(c.current_size(), 60);
}

#[test]
fn oversized_payload_is_turned_away() {
    let mut c = cache(100, EvictionPolicy::LeastRecentlyUsed);
    c.insert(id("A"), vec![0u8; 60]);
    c.insert(id("huge"), vec![0u8; 101]);
    assert!(!c.contains(&id("huge")));
    assert!(c.contains(&id("A")));
    assert_eq!(c.current_size(), 60);
}

#[test]
fn payload_of_exactly_the_capacity_fits() {
    let mut c = cache(100, EvictionPolicy::LeastRecentlyUsed);
    c.insert(id("A"), vec![0u8; 60]);
    c.insert(id("full"), vec![0u8; 100]);
    assert!(c.contains(&id("full")));
    assert!(!c.contains(&id("A")));
    assert_eq!(c.current_size(), 100);
    assert_eq!(c.usage_percentage(), 100);
}

#[test]
fn zero_capacity_cache_takes_only_empty_payloads() {
    let mut c = cache(0, EvictionPolicy::LeastRecentlyUsed);
    c.insert(id("A"), vec![0u8; 1]);
    assert!(!c.contains(&id("A")));
    c.insert(id("empty"), Vec::new());
    assert!(c.contains(&id("empty")));
    assert_eq!(c.current_size(), 0);
    assert_eq!(c.usage_percentage(), 0);
}

#[test]
fn reinsert_replaces_the_payload() {
    let mut c = cache(100, EvictionPolicy::LeastRecentlyUsed);
    c.insert_at(id("A"), vec![1u8; 40], 1);
    c.insert_at(id("B"), vec![2u8; 20], 2);
    c.insert_at(id("A"), vec![3u8; 10], 3);
    assert_eq!(c.current_size(), 30);
    assert_eq!(c.get_detailed_stats().total_entries, 2);
    assert_eq!(c.get_at(&id("A"), 4), Some(&vec![3u8; 10]));
}

#[test]
fn capacity_holds_after_every_insert() {
    let mut c = cache(64, EvictionPolicy::LeastFrequentlyUsed);
    let sizes = [10usize, 64, 1, 65, 30, 30, 30, 0, 64, 7, 200, 63];
    let mut now: u128 = 0;
    for (n, size) in sizes.iter().enumerate() {
        now += 1;
        c.insert_at(format!("asset{}", n % 5), vec![0u8; *size], now);
        assert!(c.current_size() <= c.max_size());
    }
}

#[test]
fn get_returns_the_bytes_and_counts_hits_and_misses() {
    let mut c = cache(100, EvictionPolicy::LeastRecentlyUsed);
    c.insert(id("A"), vec![7u8, 8, 9]);
    assert_eq!(c.get(&id("A")), Some(&vec![7u8, 8, 9]));
    assert_eq!(c.get(&id("B")), None);
    let stats = c.get_detailed_stats();
    assert_eq!(stats.hit_count, 1);
    assert_eq!(stats.miss_count, 1);
    assert_eq!(stats.hit_rate, 50);
    assert_eq!(c.get_hit_rate(), 50);
    assert!(c.get(&id("A")).is_some());
    // two hits out of three lookups: 66 percent, rounded down
    assert_eq!(c.get_hit_rate(), 66);
}

#[test]
fn inserts_do_not_change_the_hit_rate() {
    let mut c = cache(100, EvictionPolicy::LeastRecentlyUsed);
    c.insert(id("A"), vec![0u8; 10]);
    assert!(c.get(&id("A")).is_some());
    assert!(c.get(&id("nope")).is_none());
    assert!(c.get(&id("nope")).is_none());
    assert!(c.get(&id("nope")).is_none());
    let before = c.get_hit_rate();
    assert_eq!(before, 25);
    c.insert(id("B"), vec![0u8; 50]);
    c.insert(id("C"), vec![0u8; 50]);
    c.insert(id("huge"), vec![0u8; 500]);
    assert_eq!(c.get_hit_rate(), before);
    assert_eq!(c.get_detailed_stats().hit_count, 1);
    assert_eq!(c.get_detailed_stats().miss_count, 3);
}

#[test]
fn remove_reports_whether_the_entry_was_there() {
    let mut c = cache(100, EvictionPolicy::LeastRecentlyUsed);
    c.insert(id("A"), vec![0u8; 25]);
    c.insert(id("B"), vec![0u8; 25]);
    assert!(c.remove(&id("A")));
    assert!(!c.remove(&id("A")));
    assert_eq!(c.current_size(), 25);
    assert_eq!(c.usage_percentage(), 25);
}

#[test]
fn clear_empties_the_cache_and_resets_the_counters() {
    let mut c = cache(100, EvictionPolicy::LeastRecentlyUsed);
    c.insert(id("A"), vec![0u8; 25]);
    assert!(c.get(&id("A")).is_some());
    assert!(c.get(&id("B")).is_none());
    c.clear();
    assert_eq!(c.current_size(), 0);
    assert!(!c.contains(&id("A")));
    let stats = c.get_detailed_stats();
    assert_eq!(stats.total_entries, 0);
    assert_eq!(stats.hit_count, 0);
    assert_eq!(stats.miss_count, 0);
    assert_eq!(stats.max_size, 100);
}

const SECOND: u128 = 1_000_000_000;

#[test]
fn cleanup_drops_cold_entries_only() {
    let mut c = cache(1000, EvictionPolicy::LeastRecentlyUsed);
    c.insert_at(id("cold"), vec![0u8; 10], 0);
    c.insert_at(id("reused"), vec![0u8; 20], 0);
    c.insert_at(id("fresh"), vec![0u8; 30], 200 * SECOND);
    // a second access makes an entry count as reused
    assert!(c.get_at(&id("reused"), 1).is_some());
    c.cleanup_at(301 * SECOND);
    assert!(!c.contains(&id("cold")));
    assert!(c.contains(&id("reused")));
    assert!(c.contains(&id("fresh")));
    assert_eq!(c.current_size(), 50);
}

#[test]
fn cleanup_window_is_exclusive_at_five_minutes() {
    let mut c = cache(1000, EvictionPolicy::LeastRecentlyUsed);
    c.insert_at(id("A"), vec![0u8; 10], 5);
    c.cleanup_at(300 * SECOND + 5);
    assert!(c.contains(&id("A")));
    c.cleanup_at(300 * SECOND + 6);
    assert!(!c.contains(&id("A")));
    assert_eq!(c.current_size(), 0);
}

#[test]
fn cleanup_right_after_insert_drops_nothing() {
    let mut c = cache(1000, EvictionPolicy::LeastRecentlyUsed);
    c.insert(id("A"), vec![0u8; 10]);
    c.cleanup();
    assert!(c.contains(&id("A")));
}
