use adls_backend_cache::cache::ClientCache;
use adls_backend_cache::errors::ConstructionError;

#[test]
fn cold_start_constructs_once() {
    let mut cache = ClientCache::new();
    assert_eq!(cache.construction_count(), 0);
    let account = String::from("acct1");
    let handle = cache
        .get_or_create(&account)
        .expect("construction for a fresh account should succeed");
    assert_eq!(cache.construction_count(), 1);
    assert_eq!(handle.client_id(), 0);
}

#[test]
fn warm_hit_returns_same_client() {
    let mut cache = ClientCache::new();
    let account = String::from("acct1");
    let first = cache.get_or_create(&account).expect("first call should succeed");
    let again = cache.get_or_create(&account).expect("second call should succeed");
    assert_eq!(cache.construction_count(), 1);
    assert_eq!(first.client_id(), again.client_id());
}

#[test]
fn independent_keys_get_independent_clients() {
    let mut cache = ClientCache::new();
    let first_account = String::from("acct1");
    let second_account = String::from("acct3");
    let first = cache.get_or_create(&first_account).expect("first account should succeed");
    let second = cache.get_or_create(&second_account).expect("second account should succeed");
    assert_eq!(cache.construction_count(), 2);
    assert_ne!(first.client_id(), second.client_id());

    let first_again = cache.get_or_create(&first_account).expect("repeat should succeed");
    let second_again = cache.get_or_create(&second_account).expect("repeat should succeed");
    assert_eq!(cache.construction_count(), 2);
    assert_eq!(first_again.client_id(), first.client_id());
    assert_eq!(second_again.client_id(), second.client_id());
}

#[test]
fn empty_identifier_is_rejected() {
    let mut cache = ClientCache::new();
    let empty = String::new();
    let outcome = cache.get_or_create(&empty);
    assert!(matches!(outcome, Err(ConstructionError::EmptyAccountId)));
    assert_eq!(cache.construction_count(), 0);
    assert!(cache.get(&empty).is_none());
}

#[test]
fn failure_leaves_no_residue() {
    let mut cache = ClientCache::new();
    let empty = String::new();
    assert!(cache.get_or_create(&empty).is_err());
    assert_eq!(cache.construction_count(), 0);

    let account = String::from("acct1");
    let handle = cache
        .get_or_create(&account)
        .expect("a valid account after a failed call should succeed");
    assert_eq!(handle.client_id(), 0);
    assert_eq!(cache.construction_count(), 1);
}

#[test]
fn get_returns_cached_handles_only() {
    let mut cache = ClientCache::new();
    let account = String::from("acct1");
    assert!(cache.get(&account).is_none());
    let handle = cache.get_or_create(&account).expect("construction should succeed");
    let looked_up = cache.get(&account).expect("the entry should now be cached");
    assert_eq!(looked_up.client_id(), handle.client_id());
    assert_eq!(cache.construction_count(), 1);
}

#[test]
fn error_messages_name_the_cause() {
    assert_eq!(
        ConstructionError::EmptyAccountId.message(),
        "account identifier must not be empty"
    );
    assert_eq!(
        ConstructionError::AuthenticationFailed.message(),
        "no usable credential source was available"
    );
}
