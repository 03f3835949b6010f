use limiter::memory::memory_store::MemoryStore;
use limiter::store::{QueryDatabase, timestamp};

#[test]
fn create_inserts_new_value_when_key_missing() {
    let mut store: MemoryStore<u64> = MemoryStore::new();

    QueryDatabase::create(&mut store, "k1".to_string(), 10, None);

    let got = QueryDatabase::find(&mut store, "k1".to_string());
    assert_eq!(got, Some(10));

    let map = &store.map;
    let stored = map.get("k1").unwrap();
    assert_eq!(stored.value, 10);
    assert_eq!(stored.expires_at, None);
}

#[test]
fn create_does_not_overwrite_existing_key() {
    let mut store: MemoryStore<u64> = MemoryStore::new();

    QueryDatabase::create(&mut store, "k1".to_string(), 10, None);
    QueryDatabase::create(&mut store, "k1".to_string(), 99, Some(123));

    let got = QueryDatabase::find(&mut store, "k1".to_string());
    assert_eq!(got, Some(10));

    let map = &store.map;
    let stored = map.get("k1").unwrap();
    assert_eq!(stored.value, 10);
    assert_eq!(stored.expires_at, None);
}

#[test]
fn find_returns_none_for_missing_key() {
    let mut store: MemoryStore<u64> = MemoryStore::new();

    let got = QueryDatabase::find(&mut store, "missing".to_string());
    assert_eq!(got, None);
}

#[test]
fn find_returns_value_when_not_expired() {
    let mut store: MemoryStore<String> = MemoryStore::new();

    let now = timestamp();
    QueryDatabase::create(&mut store, "k1".to_string(), "value".to_string(), Some(now + 60));

    let got = QueryDatabase::find(&mut store, "k1".to_string());
    assert_eq!(got, Some("value".to_string()));
}

#[test]
fn delete_bucket_removes_key_and_is_idempotent() {
    let mut store: MemoryStore<u64> = MemoryStore::new();

    QueryDatabase::create(&mut store, "k1".to_string(), 10, None);
    QueryDatabase::delete_bucket(&mut store, "k1".to_string());

    let got = QueryDatabase::find(&mut store, "k1".to_string());
    assert_eq!(got, None);

    // deleting again does not panic
    QueryDatabase::delete_bucket(&mut store, "k1".to_string());
}

#[test]
fn update_bucket_status_overwrites_existing_value_and_ttl() {
    let mut store: MemoryStore<u64> = MemoryStore::new();
    let now = timestamp();

    QueryDatabase::create(&mut store, "k1".to_string(), 10, Some(now + 100));

    QueryDatabase::update_bucket_status(&mut store, "k1".to_string(), 77, Some(now + 200));

    let got = QueryDatabase::find(&mut store, "k1".to_string());
    assert_eq!(got, Some(77));

    let map = &store.map;
    let stored = map.get("k1").unwrap();
    assert_eq!(stored.value, 77);
    assert_eq!(stored.expires_at, Some(now + 200));
}

#[test]
fn update_bucket_status_inserts_when_key_missing() {
    let mut store: MemoryStore<u64> = MemoryStore::new();

    QueryDatabase::update_bucket_status(&mut store, "k1".to_string(), 55, None);

    let got = QueryDatabase::find(&mut store, "k1".to_string());
    assert_eq!(got, Some(55));
}

#[test]
fn find_does_not_delete_when_no_expiration_set() {
    let mut store: MemoryStore<u64> = MemoryStore::new();

    QueryDatabase::create(&mut store, "k1".to_string(), 10, None);

    let got = QueryDatabase::find(&mut store, "k1".to_string());
    assert_eq!(got, Some(10));

    let map = &store.map;
    assert!(map.contains_key("k1"));
}
