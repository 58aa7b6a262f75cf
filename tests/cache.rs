use cached_completions::cache_client::{Cache, MemoryCache};

#[test]
fn unwritten_key_is_absent() {
    let mut cache: MemoryCache<(String, String), String> = MemoryCache::new();
    assert!(cache.read_key(&("a".to_string(), "b".to_string())).is_none());
    cache.write_key(("a".to_string(), "c".to_string()), "x".to_string()).unwrap();
    assert!(cache.read_key(&("a".to_string(), "b".to_string())).is_none());
    assert!(cache.read_key(&("c".to_string(), "a".to_string())).is_none());
}

#[test]
fn read_after_write_returns_value() {
    let mut cache: MemoryCache<(String, String), String> = MemoryCache::new();
    assert_eq!(cache.write_key(("a".to_string(), "b".to_string()), "v".to_string()), Ok(()));
    assert_eq!(cache.read_key(&("a".to_string(), "b".to_string())), Some(&"v".to_string()));
}

#[test]
fn last_write_wins_and_others_untouched() {
    let mut cache: MemoryCache<(String, String), String> = MemoryCache::new();
    cache.write_key(("k".to_string(), "1".to_string()), "other".to_string()).unwrap();
    cache.write_key(("k".to_string(), "2".to_string()), "first".to_string()).unwrap();
    cache.write_key(("k".to_string(), "2".to_string()), "second".to_string()).unwrap();
    assert_eq!(cache.read_key(&("k".to_string(), "2".to_string())), Some(&"second".to_string()));
    assert_eq!(cache.read_key(&("k".to_string(), "1".to_string())), Some(&"other".to_string()));
}

#[test]
fn remove_after_write_returns_value_then_absent() {
    let mut cache: MemoryCache<u64, String> = MemoryCache::new();
    cache.write_key(7, "seven".to_string()).unwrap();
    cache.write_key(8, "eight".to_string()).unwrap();
    assert_eq!(cache.clear_key(&7), Some("seven".to_string()));
    assert!(cache.read_key(&7).is_none());
    assert_eq!(cache.read_key(&8), Some(&"eight".to_string()));
}

#[test]
fn remove_absent_key_is_noop() {
    let mut cache: MemoryCache<String, u64> = MemoryCache::new();
    cache.write_key("x".to_string(), 1).unwrap();
    assert_eq!(cache.clear_key(&"y".to_string()), None);
    assert_eq!(cache.read_key(&"x".to_string()), Some(&1));
    assert_eq!(cache.clear_key(&"x".to_string()), Some(1));
    assert_eq!(cache.clear_key(&"x".to_string()), None);
}

#[test]
fn read_key_mut_updates_in_place() {
    let mut cache: MemoryCache<u64, u64> = MemoryCache::new();
    assert!(cache.read_key_mut(&3).is_none());
    cache.write_key(3, 10).unwrap();
    if let Some(v) = cache.read_key_mut(&3) {
        *v += 5;
    }
    assert_eq!(cache.read_key(&3), Some(&15));
    assert!(cache.read_key(&4).is_none());
}

#[test]
fn keys_differ_by_either_component() {
    let mut cache: MemoryCache<(String, String), String> = MemoryCache::new();
    cache.write_key(("ab".to_string(), "c".to_string()), "1".to_string()).unwrap();
    cache.write_key(("a".to_string(), "bc".to_string()), "2".to_string()).unwrap();
    assert_eq!(cache.read_key(&("ab".to_string(), "c".to_string())), Some(&"1".to_string()));
    assert_eq!(cache.read_key(&("a".to_string(), "bc".to_string())), Some(&"2".to_string()));
}
