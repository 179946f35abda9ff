use azubitafel::cache::{Cache, CacheEntry};
use azubitafel::weather::ForecastParams;
use std::cell::Cell;

fn key(name: &str) -> String {
    name.to_string()
}

#[test]
fn entry_is_fresh_until_its_lifetime_is_over() {
    let entry = CacheEntry { value: 7u8, written_at: 100 };
    assert!(!entry.expired(30, 100));
    assert!(!entry.expired(30, 129));
    assert!(entry.expired(30, 130));
    assert!(entry.expired(30, 131));
    assert!(entry.expired(30, u64::MAX));
}

#[test]
fn entry_is_fresh_while_the_clock_reads_less_than_its_stamp() {
    let entry = CacheEntry { value: 7u8, written_at: 100 };
    assert!(!entry.expired(30, 0));
    assert!(!entry.expired(30, 99));
    assert!(!entry.expired(0, 99));
}

#[test]
fn entry_with_no_lifetime_is_stale_at_once() {
    let entry = CacheEntry { value: 7u8, written_at: 100 };
    assert!(entry.expired(0, 100));
}

#[test]
fn expiry_near_the_end_of_time_does_not_wrap() {
    let entry = CacheEntry { value: 7u8, written_at: u64::MAX - 5 };
    assert!(!entry.expired(30, u64::MAX));
    assert!(!entry.expired(6, u64::MAX));
    assert!(entry.expired(5, u64::MAX));
}

#[test]
fn new_cache_is_empty_and_keeps_its_lifetime() {
    let cache: Cache<String, i32> = Cache::new(30);
    assert_eq!(cache.lifetime(), 30);
    assert_eq!(cache.get_last_modified_time(&key("A")), None);
    assert_eq!(cache.lookup(&key("A"), 0), None);
}

#[test]
fn hit_within_lifetime_and_refill_after() {
    let mut cache: Cache<String, i32> = Cache::new(30);
    let f1 = Cell::new(0);
    let f2 = Cell::new(0);

    let first: Result<i32, String> = cache.get(key("A"), 0, || {
        f1.set(f1.get() + 1);
        Ok(1)
    });
    assert_eq!(first, Ok(1));
    assert_eq!(f1.get(), 1);

    let second: Result<i32, String> = cache.get(key("A"), 10, || {
        f2.set(f2.get() + 1);
        Ok(2)
    });
    assert_eq!(second, Ok(1));
    assert_eq!(f2.get(), 0);

    let third: Result<i32, String> = cache.get(key("A"), 31, || {
        f2.set(f2.get() + 1);
        Ok(2)
    });
    assert_eq!(third, Ok(2));
    assert_eq!(f2.get(), 1);
}

#[test]
fn last_modified_follows_the_refills() {
    let mut cache: Cache<String, i32> = Cache::new(30);
    assert_eq!(cache.get_last_modified_time(&key("A")), None);

    let first: Result<i32, String> = cache.get(key("A"), 5, || Ok(1));
    assert_eq!(first, Ok(1));
    assert_eq!(cache.get_last_modified_time(&key("A")), Some(5));

    let second: Result<i32, String> = cache.get(key("A"), 40, || Ok(2));
    assert_eq!(second, Ok(2));
    assert_eq!(cache.get_last_modified_time(&key("A")), Some(40));
}

#[test]
fn every_read_before_expiry_is_a_hit_and_the_read_at_expiry_fetches_once() {
    let mut cache: Cache<u64, u64> = Cache::new(30);
    let calls = Cell::new(0u32);
    let written: Result<u64, ()> = cache.get(9, 100, || Ok(11));
    assert_eq!(written, Ok(11));
    for now in 100..130u64 {
        let read: Result<u64, ()> = cache.get(9, now, || {
            calls.set(calls.get() + 1);
            Ok(12)
        });
        assert_eq!(read, Ok(11));
    }
    assert_eq!(calls.get(), 0);
    let read: Result<u64, ()> = cache.get(9, 130, || {
        calls.set(calls.get() + 1);
        Ok(12)
    });
    assert_eq!(read, Ok(12));
    assert_eq!(calls.get(), 1);
    assert_eq!(cache.get_last_modified_time(&9), Some(130));
}

#[test]
fn failed_fetch_is_handed_back_and_nothing_is_stored() {
    let mut cache: Cache<String, i32> = Cache::new(30);
    let failed: Result<i32, String> = cache.get(key("A"), 0, || Err(key("down")));
    assert_eq!(failed, Err(key("down")));
    assert_eq!(cache.get_last_modified_time(&key("A")), None);
    assert_eq!(cache.lookup(&key("A"), 0), None);

    let calls = Cell::new(0);
    let again: Result<i32, String> = cache.get(key("A"), 0, || {
        calls.set(calls.get() + 1);
        Ok(3)
    });
    assert_eq!(again, Ok(3));
    assert_eq!(calls.get(), 1);
}

#[test]
fn failed_refill_leaves_the_stale_entry_as_it_was() {
    let mut cache: Cache<String, i32> = Cache::new(30);
    let first: Result<i32, String> = cache.get(key("A"), 5, || Ok(1));
    assert_eq!(first, Ok(1));
    let failed: Result<i32, String> = cache.get(key("A"), 50, || Err(key("down")));
    assert_eq!(failed, Err(key("down")));
    assert_eq!(cache.get_last_modified_time(&key("A")), Some(5));
    assert_eq!(cache.lookup(&key("A"), 50), None);
    assert_eq!(cache.lookup(&key("A"), 20), Some(&1));
}

#[test]
fn last_modified_never_decreases_over_gets() {
    let mut cache: Cache<String, u64> = Cache::new(10);
    let times = [3u64, 4, 13, 12, 2, 23, 40, 39, 50];
    let mut last = None;
    for now in times {
        let _: Result<u64, ()> = cache.get(key("A"), now, || Ok(now));
        let stamp = cache.get_last_modified_time(&key("A"));
        assert!(stamp >= last);
        assert!(stamp.is_some());
        last = stamp;
    }
    assert_eq!(last, Some(50));
}

#[test]
fn keys_do_not_share_entries() {
    let mut cache: Cache<String, i32> = Cache::new(30);
    let a: Result<i32, ()> = cache.get(key("A"), 0, || Ok(1));
    let b: Result<i32, ()> = cache.get(key("B"), 7, || Ok(2));
    assert_eq!((a, b), (Ok(1), Ok(2)));
    assert_eq!(cache.get_last_modified_time(&key("A")), Some(0));
    assert_eq!(cache.get_last_modified_time(&key("B")), Some(7));
    assert_eq!(cache.lookup(&key("A"), 8), Some(&1));
    assert_eq!(cache.lookup(&key("B"), 8), Some(&2));
    assert_eq!(cache.lookup(&key("C"), 8), None);
}

#[test]
fn refill_replaces_and_does_not_duplicate() {
    let mut cache: Cache<String, i32> = Cache::new(1);
    for round in 0..5 {
        let got: Result<i32, ()> = cache.get(key("A"), round * 10, || Ok(round as i32));
        assert_eq!(got, Ok(round as i32));
        assert_eq!(cache.lookup(&key("A"), round * 10), Some(&(round as i32)));
    }
    assert_eq!(cache.get_last_modified_time(&key("A")), Some(40));
}

#[test]
fn settle_writes_a_success_and_passes_a_failure_on() {
    let mut cache: Cache<String, i32> = Cache::new(30);
    let kept: Result<i32, String> = cache.settle(key("A"), 12, Ok(4));
    assert_eq!(kept, Ok(4));
    assert_eq!(cache.get_last_modified_time(&key("A")), Some(12));
    let passed: Result<i32, String> = cache.settle(key("A"), 20, Err(key("malformed")));
    assert_eq!(passed, Err(key("malformed")));
    assert_eq!(cache.get_last_modified_time(&key("A")), Some(12));
    assert_eq!(cache.lookup(&key("A"), 20), Some(&4));
}

#[test]
fn cache_with_no_lifetime_fetches_every_time() {
    let mut cache: Cache<u64, u64> = Cache::new(0);
    let calls = Cell::new(0u64);
    for _ in 0..3 {
        let got: Result<u64, ()> = cache.get(1, 5, || {
            calls.set(calls.get() + 1);
            Ok(calls.get())
        });
        assert_eq!(got, Ok(calls.get()));
    }
    assert_eq!(calls.get(), 3);
}

#[test]
fn two_gets_at_one_moment_fetch_once() {
    let mut cache: Cache<String, i32> = Cache::new(30);
    let calls = Cell::new(0);
    for _ in 0..2 {
        let got: Result<i32, ()> = cache.get(key("A"), 100, || {
            calls.set(calls.get() + 1);
            Ok(8)
        });
        assert_eq!(got, Ok(8));
    }
    assert_eq!(calls.get(), 1);
}

#[test]
fn forecast_params_are_keys_by_their_days() {
    let mut cache: Cache<ForecastParams, &'static str> = Cache::new(30);
    let open: Result<&str, ()> = cache.get(ForecastParams { days: None }, 0, || Ok("open"));
    let three: Result<&str, ()> = cache.get(ForecastParams { days: Some(3) }, 1, || Ok("three"));
    assert_eq!((open, three), (Ok("open"), Ok("three")));
    assert_eq!(cache.lookup(&ForecastParams::default(), 2), Some(&"open"));
    assert_eq!(cache.lookup(&ForecastParams { days: Some(3) }, 2), Some(&"three"));
    assert_eq!(cache.lookup(&ForecastParams { days: Some(4) }, 2), None);
    assert_eq!(ForecastParams { days: Some(3) }.days_or(Some(7)), Some(3));
    assert_eq!(ForecastParams { days: None }.days_or(Some(7)), Some(7));
    assert_eq!(ForecastParams { days: None }.days_or(None), None);
}
