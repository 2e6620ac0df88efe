//! Tests of the TTL-aware LRU cache: insertion, lookup, eviction
//! order, expiry, and the scavenger sweep.

use dash::dns::{DnsMessage, DnsRecord, QClass, QR, Rdata};
use dash::lru_ttl_cache::Cache;

fn response(addr: [u8; 4]) -> DnsMessage {
    DnsMessage {
        qr: QR::Response,
        rd: true,
        questions: Vec::new(),
        answers: vec![DnsRecord {
            name: "example.com.".to_string(),
            class: QClass::Internet,
            ttl: 60,
            resource: Rdata::A(addr),
        }],
        authoritys: Vec::new(),
        additionals: Vec::new(),
        extension: None,
    }
}

fn first_addr(m: &DnsMessage) -> [u8; 4] {
    match m.answers[0].resource {
        Rdata::A(a) => a,
        _ => panic!("expected an A record"),
    }
}

#[test]
fn new_cache_is_empty() {
    let c = Cache::new(3);
    assert_eq!(c.capacity(), 3);
    assert_eq!(c.len(), 0);
    assert!(c.get(&"k".to_string(), 0).is_none());
}

#[test]
fn add_then_get_returns_copy() {
    let mut c = Cache::new(3);
    assert!(c.add("k1".to_string(), response([1, 2, 3, 4]), 100));
    let v = c.get(&"k1".to_string(), 50).unwrap();
    assert_eq!(first_addr(&v), [1, 2, 3, 4]);
}

#[test]
fn duplicate_key_is_not_updated() {
    let mut c = Cache::new(3);
    assert!(c.add("k1".to_string(), response([1, 1, 1, 1]), 100));
    assert!(!c.add("k1".to_string(), response([2, 2, 2, 2]), 200));
    let v = c.get(&"k1".to_string(), 50).unwrap();
    assert_eq!(first_addr(&v), [1, 1, 1, 1]);
    assert_eq!(c.len(), 1);
}

#[test]
fn zero_capacity_stores_nothing() {
    let mut c = Cache::new(0);
    assert!(!c.add("k1".to_string(), response([1, 2, 3, 4]), 100));
    assert_eq!(c.len(), 0);
    assert!(c.get(&"k1".to_string(), 0).is_none());
}

#[test]
fn full_cache_evicts_least_recently_used() {
    let mut c = Cache::new(3);
    assert!(c.add("k1".to_string(), response([1, 1, 1, 1]), 100));
    assert!(c.add("k2".to_string(), response([2, 2, 2, 2]), 100));
    assert!(c.add("k3".to_string(), response([3, 3, 3, 3]), 100));
    assert!(c.add("k4".to_string(), response([4, 4, 4, 4]), 100));
    assert_eq!(c.len(), 3);
    assert!(c.get(&"k1".to_string(), 0).is_none());
    assert!(c.get(&"k2".to_string(), 0).is_some());
    assert!(c.get(&"k3".to_string(), 0).is_some());
    assert!(c.get(&"k4".to_string(), 0).is_some());
}

#[test]
fn below_capacity_nothing_is_evicted() {
    let mut c = Cache::new(3);
    assert!(c.add("k1".to_string(), response([1, 1, 1, 1]), 100));
    assert!(c.add("k2".to_string(), response([2, 2, 2, 2]), 100));
    assert!(c.get(&"k1".to_string(), 0).is_some());
    assert!(c.get(&"k2".to_string(), 0).is_some());
    assert_eq!(c.len(), 2);
}

#[test]
fn capacity_is_never_exceeded() {
    let mut c = Cache::new(2);
    for i in 0..10u32 {
        c.add(format!("k{}", i), response([1, 2, 3, 4]), 100);
        assert!(c.len() <= 2);
    }
}

#[test]
fn expired_entry_is_absent() {
    let mut c = Cache::new(3);
    assert!(c.add("k1".to_string(), response([1, 2, 3, 4]), 100));
    assert!(c.get(&"k1".to_string(), 99).is_some());
    assert!(c.get(&"k1".to_string(), 100).is_none());
    assert!(c.get(&"k1".to_string(), 101).is_none());
}

#[test]
fn evict_removes_the_tail() {
    let mut c = Cache::new(3);
    assert!(c.add("k1".to_string(), response([1, 1, 1, 1]), 100));
    assert!(c.add("k2".to_string(), response([2, 2, 2, 2]), 100));
    c.evict();
    assert_eq!(c.len(), 1);
    assert!(c.get(&"k1".to_string(), 0).is_none());
    assert!(c.get(&"k2".to_string(), 0).is_some());
}

#[test]
fn cached_response_projects_for_the_client() {
    // The job's cache-hit path: a stored response is served and
    // projected without touching the resolver.
    let mut c = Cache::new(3);
    let key = "example.com. A IN".to_string();
    assert!(c.add(key.clone(), response([93, 184, 216, 34]), 1000));
    let v = c.get(&key, 500).unwrap();
    assert_eq!(dash::dashjob::project_answer(&v).unwrap(), "93.184.216.34");
}

#[test]
fn sweep_removes_expired_entries_in_window() {
    // Capacity 40 gives sweep windows of four entries; window zero
    // covers the four entries present.
    let mut c = Cache::new(40);
    assert!(c.add("k1".to_string(), response([1, 1, 1, 1]), 10));
    assert!(c.add("k2".to_string(), response([2, 2, 2, 2]), 200));
    assert!(c.add("k3".to_string(), response([3, 3, 3, 3]), 20));
    assert!(c.add("k4".to_string(), response([4, 4, 4, 4]), 300));
    c.sweep_window(100, 0);
    assert_eq!(c.len(), 2);
    assert!(c.get(&"k1".to_string(), 0).is_none());
    assert!(c.get(&"k3".to_string(), 0).is_none());
    assert!(c.get(&"k2".to_string(), 0).is_some());
    assert!(c.get(&"k4".to_string(), 0).is_some());
}

#[test]
fn sweep_leaves_other_windows_alone() {
    // Capacity 10 gives sweep windows of one entry; sweeping window
    // zero touches only the first (least recently used) entry.
    let mut c = Cache::new(10);
    assert!(c.add("k1".to_string(), response([1, 1, 1, 1]), 10));
    assert!(c.add("k2".to_string(), response([2, 2, 2, 2]), 20));
    c.sweep_window(100, 1);
    assert_eq!(c.len(), 1);
    assert!(c.contains_key(&"k1".to_string()));
    c.sweep_window(100, 0);
    assert_eq!(c.len(), 0);
}
