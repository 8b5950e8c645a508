use service_discovery::cache::{
    get_service_instance_key, get_service_list_key, BalancerLookup, CacheType, Expiration,
    MyExpiry, TtlCache,
};

#[test]
fn as_duration_gives_each_policy_its_lifetime() {
    assert_eq!(Expiration::Never.as_duration(), None);
    assert_eq!(Expiration::AfterShortTime.as_duration(), Some(5000));
    assert_eq!(Expiration::AfterLongTime.as_duration(), Some(1_500_000));
    assert_eq!(Expiration::Second5.as_duration(), Some(5000));
}

#[test]
fn expiry_hook_follows_the_policy_on_create_and_update() {
    let expiry = MyExpiry;
    let v = (Expiration::Second5, CacheType::I32(1));
    assert_eq!(expiry.expire_after_create(&v), Some(5000));
    assert_eq!(expiry.expire_after_update(&v), Some(5000));
    let never = (Expiration::Never, CacheType::I32(2));
    assert_eq!(expiry.expire_after_create(&never), None);
}

#[test]
fn timed_entry_lives_until_its_duration_and_no_longer() {
    let mut cache = TtlCache::new(16);
    let t0: u64 = 1000;
    cache.insert("now".to_string(), Expiration::AfterShortTime, CacheType::Str("v".to_string()), t0);
    // any time strictly before t0 + 5000 is a hit
    assert!(cache.get(&"now".to_string(), t0).is_some());
    assert!(cache.get(&"now".to_string(), t0 + 4999).is_some());
    // from t0 + 5000 on it is a miss
    assert!(cache.get(&"now".to_string(), t0 + 5000).is_none());
    assert!(cache.get(&"now".to_string(), t0 + 100_000).is_none());
}

#[test]
fn never_entry_outlives_any_clock() {
    let mut cache = TtlCache::new(16);
    cache.insert("k".to_string(), Expiration::Never, CacheType::I32(7), 0);
    let hit = cache.get(&"k".to_string(), u64::MAX).expect("never-policy entry expired");
    match &hit.value {
        CacheType::I32(v) => assert_eq!(*v, 7),
        _ => panic!("wrong variant came back"),
    }
}

#[test]
fn overwrite_resets_the_expiration_clock() {
    let mut cache = TtlCache::new(16);
    cache.insert("k".to_string(), Expiration::Second5, CacheType::I32(1), 0);
    // refreshed at 4000: the entry now lives until 9000
    cache.insert("k".to_string(), Expiration::Second5, CacheType::I32(2), 4000);
    let hit = cache.get(&"k".to_string(), 8999).expect("refreshed entry expired early");
    match &hit.value {
        CacheType::I32(v) => assert_eq!(*v, 2),
        _ => panic!("wrong variant came back"),
    }
    assert!(cache.get(&"k".to_string(), 9000).is_none());
}

// Design decision: when a new key arrives at capacity, the entry with the
// oldest insertion time leaves (overwriting a key refreshes its insertion
// time, so recently written entries survive).
#[test]
fn capacity_evicts_the_oldest_insertion() {
    let mut cache = TtlCache::new(2);
    cache.insert("a".to_string(), Expiration::Never, CacheType::I32(1), 10);
    cache.insert("b".to_string(), Expiration::Never, CacheType::I32(2), 20);
    cache.insert("c".to_string(), Expiration::Never, CacheType::I32(3), 30);
    assert!(cache.get(&"a".to_string(), 40).is_none());
    assert!(cache.get(&"b".to_string(), 40).is_some());
    assert!(cache.get(&"c".to_string(), 40).is_some());
}

#[test]
fn get_or_insert_keeps_a_live_entry_and_fills_a_miss() {
    let mut cache = TtlCache::new(16);
    cache.insert("k".to_string(), Expiration::Second5, CacheType::I32(1), 0);
    let inserted = cache.get_or_insert("k".to_string(), Expiration::Second5, CacheType::I32(9), 100);
    assert!(!inserted);
    match &cache.get(&"k".to_string(), 100).unwrap().value {
        CacheType::I32(v) => assert_eq!(*v, 1),
        _ => panic!("wrong variant came back"),
    }
    // once expired, the same call populates
    let inserted = cache.get_or_insert("k".to_string(), Expiration::Second5, CacheType::I32(9), 6000);
    assert!(inserted);
    match &cache.get(&"k".to_string(), 6000).unwrap().value {
        CacheType::I32(v) => assert_eq!(*v, 9),
        _ => panic!("wrong variant came back"),
    }
}

#[test]
fn sweep_drops_exactly_the_expired_entries() {
    let mut cache = TtlCache::new(16);
    cache.insert("old".to_string(), Expiration::Second5, CacheType::I32(1), 0);
    cache.insert("young".to_string(), Expiration::Second5, CacheType::I32(2), 4000);
    cache.insert("forever".to_string(), Expiration::Never, CacheType::I32(3), 0);
    cache.evict_expired(5000);
    assert!(cache.get(&"old".to_string(), 5000).is_none());
    assert!(cache.get(&"young".to_string(), 5000).is_some());
    assert!(cache.get(&"forever".to_string(), 5000).is_some());
}

#[test]
fn key_builders_spell_the_published_names() {
    assert_eq!(get_service_instance_key("svc".to_string()), "load_balance_svc");
    assert_eq!(get_service_list_key("svc".to_string()), "nacos_service_list::svc");
}

#[test]
fn balancer_lookup_on_a_non_balancer_entry_is_a_miss() {
    let mut cache = TtlCache::new(16);
    cache.insert("k".to_string(), Expiration::Never, CacheType::Str("x".to_string()), 0);
    match cache.next_instance(&"k".to_string(), 0) {
        BalancerLookup::Missing => {}
        _ => panic!("a plain string entry must not select instances"),
    }
}
