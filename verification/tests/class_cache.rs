use duchess_macro::class_cache::{Access, ClassCache};

#[test]
fn two_first_accesses_make_one_lookup_and_share_the_handle() {
    let mut cache: ClassCache<u64> = ClassCache::new();
    let mut lookups = 0;
    let first = cache.access();
    let second = cache.access();
    for access in [&first, &second] {
        if *access == Access::Lookup {
            lookups += 1;
        }
    }
    assert_eq!(first, Access::Lookup);
    assert_eq!(second, Access::Wait);
    assert_eq!(lookups, 1);
    // the lookup succeeds: the caller that made it and the one that waited
    // get the same handle
    let outcome: Result<u64, String> = cache.complete(Ok(41));
    assert_eq!(outcome, Ok(41));
    assert_eq!(cache.get(), Some(41));
    assert_eq!(cache.access(), Access::Ready(41));
    assert_eq!(cache.access(), Access::Ready(41));
}

#[test]
fn failed_lookup_is_not_kept() {
    let mut cache: ClassCache<u64> = ClassCache::new();
    assert_eq!(cache.access(), Access::Lookup);
    let outcome: Result<u64, &str> = cache.complete(Err("no such class"));
    assert_eq!(outcome, Err("no such class"));
    assert_eq!(cache.get(), None);
    // the next caller looks up afresh
    assert_eq!(cache.access(), Access::Lookup);
    let outcome: Result<u64, &str> = cache.complete(Ok(7));
    assert_eq!(outcome, Ok(7));
    assert_eq!(cache.access(), Access::Ready(7));
}

#[test]
fn new_cache_is_empty() {
    let cache: ClassCache<u8> = ClassCache::new();
    assert_eq!(cache.get(), None);
}

#[test]
fn stored_handle_is_never_replaced() {
    let mut cache: ClassCache<u64> = ClassCache::new();
    assert_eq!(cache.access(), Access::Lookup);
    assert_eq!(cache.complete::<()>(Ok(1)), Ok(1));
    assert_eq!(cache.complete::<()>(Ok(2)), Ok(1));
    assert_eq!(cache.complete::<()>(Err(())), Ok(1));
    assert_eq!(cache.get(), Some(1));
    assert_eq!(cache.access(), Access::Ready(1));
}

#[test]
fn waiters_stay_waiting_until_the_outcome_is_in() {
    let mut cache: ClassCache<u64> = ClassCache::new();
    assert_eq!(cache.access(), Access::Lookup);
    for _ in 0..5 {
        assert_eq!(cache.access(), Access::Wait);
        assert_eq!(cache.get(), None);
    }
    assert_eq!(cache.complete::<()>(Err(())), Err(()));
    assert_eq!(cache.access(), Access::Lookup);
    assert_eq!(cache.access(), Access::Wait);
}
