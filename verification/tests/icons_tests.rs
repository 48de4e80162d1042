use sysmon_core::icons::IconCache;

#[test]
fn second_resolution_uses_the_cache_and_not_the_resolver() {
    let mut cache = IconCache::new();
    let path = "C:/apps/editor.exe".to_string();
    let mut resolver_calls: u32 = 0;

    // First consult: a miss, so the caller invokes its resolver once.
    let first = match cache.lookup(&path) {
        Some(cached) => cached,
        None => {
            resolver_calls += 1;
            cache.resolve(&path, Some(7))
        }
    };
    // Second consult: a hit, so the resolver is not invoked again.
    let second = match cache.lookup(&path) {
        Some(cached) => cached,
        None => {
            resolver_calls += 1;
            cache.resolve(&path, Some(99))
        }
    };

    assert_eq!(first, Some(7));
    assert_eq!(second, Some(7));
    assert_eq!(resolver_calls, 1);
}

#[test]
fn negative_results_are_cached_permanently() {
    let mut cache = IconCache::new();
    let path = "C:/apps/no_icon.exe".to_string();
    assert_eq!(cache.lookup(&path), None);
    assert_eq!(cache.resolve(&path, None), None);
    // The failure is remembered: a later, would-be-successful resolution
    // is discarded and the cached negative result stands.
    assert_eq!(cache.lookup(&path), Some(None));
    assert_eq!(cache.resolve(&path, Some(3)), None);
    assert_eq!(cache.lookup(&path), Some(None));
}

#[test]
fn distinct_paths_have_distinct_entries() {
    let mut cache = IconCache::new();
    let a = "a.exe".to_string();
    let b = "b.exe".to_string();
    assert_eq!(cache.resolve(&a, Some(1)), Some(1));
    assert_eq!(cache.resolve(&b, Some(2)), Some(2));
    assert_eq!(cache.lookup(&a), Some(Some(1)));
    assert_eq!(cache.lookup(&b), Some(Some(2)));
}
