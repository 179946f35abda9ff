use azubitafel::cache::Cache;
use azubitafel::freshness_gate::{is_unmodified_since, stamp_is_unmodified_since};

#[test]
fn never_written_key_is_possibly_modified() {
    let cache: Cache<String, i32> = Cache::new(30);
    assert!(!is_unmodified_since(&cache, &"A".to_string(), 0));
    assert!(!is_unmodified_since(&cache, &"A".to_string(), u64::MAX));
}

#[test]
fn token_after_the_last_write_is_unmodified() {
    let mut cache: Cache<String, i32> = Cache::new(30);
    let _: Result<i32, ()> = cache.get("A".to_string(), 5, || Ok(1));
    assert!(is_unmodified_since(&cache, &"A".to_string(), 6));
    assert!(is_unmodified_since(&cache, &"A".to_string(), 1000));
}

#[test]
fn token_at_or_before_the_last_write_is_possibly_modified() {
    let mut cache: Cache<String, i32> = Cache::new(30);
    let _: Result<i32, ()> = cache.get("A".to_string(), 5, || Ok(1));
    assert!(!is_unmodified_since(&cache, &"A".to_string(), 5));
    assert!(!is_unmodified_since(&cache, &"A".to_string(), 4));
    assert!(!is_unmodified_since(&cache, &"A".to_string(), 0));
}

#[test]
fn answer_goes_by_the_write_stamp_not_by_the_expiry() {
    let mut cache: Cache<String, i32> = Cache::new(30);
    let _: Result<i32, ()> = cache.get("A".to_string(), 5, || Ok(1));
    // 20 lies after the write at 5 and before the expiry at 35
    assert!(is_unmodified_since(&cache, &"A".to_string(), 20));
}

#[test]
fn asking_leaves_the_cache_as_it_is() {
    let mut cache: Cache<String, i32> = Cache::new(30);
    let _: Result<i32, ()> = cache.get("A".to_string(), 5, || Ok(1));
    assert!(is_unmodified_since(&cache, &"A".to_string(), 100));
    assert_eq!(cache.get_last_modified_time(&"A".to_string()), Some(5));
    assert_eq!(cache.lookup(&"A".to_string(), 6), Some(&1));
    assert_eq!(cache.get_last_modified_time(&"B".to_string()), None);
}

#[test]
fn decision_from_the_stamp_alone() {
    assert!(!stamp_is_unmodified_since(None, 10));
    assert!(stamp_is_unmodified_since(Some(9), 10));
    assert!(!stamp_is_unmodified_since(Some(10), 10));
    assert!(!stamp_is_unmodified_since(Some(11), 10));
    assert!(!stamp_is_unmodified_since(Some(0), 0));
}
