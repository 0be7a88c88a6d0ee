use pump_sniper::blockhash_cache::{BlockhashCache, CachedBlockhash, FetchError};

const MS: u64 = 1_000_000;

#[test]
fn an_empty_cache_asks_for_a_fetch() {
    let cache = BlockhashCache::new(500);
    assert_eq!(cache.max_age_ms(), 500);
    assert_eq!(cache.entry(), None);
    assert_eq!(cache.cached_blockhash(0), None);
    assert_eq!(cache.cached_blockhash(u64::MAX), None);
}

#[test]
fn two_lookups_within_the_maximum_age_return_the_same_value() {
    let mut cache = BlockhashCache::new(500);
    assert_eq!(cache.store_fetched(Some([1u8; 32]), 1_000 * MS), Ok([1u8; 32]));
    assert_eq!(cache.cached_blockhash(1_000 * MS), Some([1u8; 32]));
    assert_eq!(cache.cached_blockhash(1_200 * MS), Some([1u8; 32]));
    assert_eq!(cache.cached_blockhash(1_500 * MS - 1), Some([1u8; 32]));
}

#[test]
fn a_value_at_the_maximum_age_is_no_longer_handed_out() {
    let mut cache = BlockhashCache::new(500);
    cache.store_fetched(Some([1u8; 32]), 1_000 * MS).unwrap();
    assert_eq!(cache.cached_blockhash(1_500 * MS), None);
    assert_eq!(cache.cached_blockhash(9_000 * MS), None);
    assert_eq!(cache.store_fetched(Some([2u8; 32]), 1_600 * MS), Ok([2u8; 32]));
    assert_eq!(cache.cached_blockhash(1_700 * MS), Some([2u8; 32]));
    assert_eq!(
        cache.entry(),
        Some(CachedBlockhash { blockhash: [2u8; 32], fetched_at: 1_600 * MS })
    );
}

#[test]
fn a_failed_fetch_is_reported_and_keeps_the_slot() {
    let mut cache = BlockhashCache::new(500);
    assert_eq!(cache.store_fetched(None, 5), Err(FetchError::FetchFailed));
    assert_eq!(cache.entry(), None);
    cache.store_fetched(Some([7u8; 32]), 1_000 * MS).unwrap();
    assert_eq!(cache.cached_blockhash(2_000 * MS), None);
    assert_eq!(cache.store_fetched(None, 2_000 * MS), Err(FetchError::FetchFailed));
    assert_eq!(
        cache.entry(),
        Some(CachedBlockhash { blockhash: [7u8; 32], fetched_at: 1_000 * MS })
    );
    assert_eq!(cache.cached_blockhash(2_000 * MS), None);
    assert_eq!(cache.cached_blockhash(1_499 * MS), Some([7u8; 32]));
}

#[test]
fn a_clock_reading_older_than_the_value_counts_as_age_zero() {
    let mut cache = BlockhashCache::new(1);
    cache.store_fetched(Some([3u8; 32]), 10 * MS).unwrap();
    assert_eq!(cache.cached_blockhash(9 * MS), Some([3u8; 32]));
    assert_eq!(cache.cached_blockhash(11 * MS - 1), Some([3u8; 32]));
    assert_eq!(cache.cached_blockhash(11 * MS), None);
}

#[test]
fn a_maximum_age_of_zero_never_hands_out() {
    let mut cache = BlockhashCache::new(0);
    cache.store_fetched(Some([3u8; 32]), 10).unwrap();
    assert_eq!(cache.cached_blockhash(10), None);
}

#[test]
fn the_largest_maximum_age_does_not_overflow() {
    let mut cache = BlockhashCache::new(u64::MAX);
    cache.store_fetched(Some([3u8; 32]), 0).unwrap();
    assert_eq!(cache.cached_blockhash(u64::MAX), Some([3u8; 32]));
}

#[test]
fn the_latest_reference_is_the_cached_one_while_fresh_and_the_fetched_one_after() {
    let mut cache = BlockhashCache::new(500);
    assert!(cache.needs_fetch(0));
    assert_eq!(cache.get_latest_blockhash(0, None), Err(FetchError::FetchFailed));
    assert_eq!(cache.entry(), None);
    assert_eq!(cache.get_latest_blockhash(10 * MS, Some([1u8; 32])), Ok([1u8; 32]));
    assert!(!cache.needs_fetch(100 * MS));
    assert_eq!(cache.get_latest_blockhash(100 * MS, None), Ok([1u8; 32]));
    assert_eq!(cache.get_latest_blockhash(100 * MS, Some([2u8; 32])), Ok([1u8; 32]));
    assert_eq!(
        cache.entry(),
        Some(CachedBlockhash { blockhash: [1u8; 32], fetched_at: 10 * MS })
    );
    assert!(cache.needs_fetch(510 * MS));
    assert_eq!(cache.get_latest_blockhash(510 * MS, None), Err(FetchError::FetchFailed));
    assert_eq!(
        cache.entry(),
        Some(CachedBlockhash { blockhash: [1u8; 32], fetched_at: 10 * MS })
    );
    assert_eq!(cache.get_latest_blockhash(520 * MS, Some([3u8; 32])), Ok([3u8; 32]));
    assert_eq!(cache.get_latest_blockhash(1_019 * MS, None), Ok([3u8; 32]));
    assert!(cache.needs_fetch(1_020 * MS));
}
