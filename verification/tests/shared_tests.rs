use adls_backend_cache::errors::ConstructionError;
use adls_backend_cache::shared::SharedClientCache;

#[test]
fn fifty_requests_one_construction() {
    let shared = SharedClientCache::new();
    let account = String::from("acct2");
    let mut ids: Vec<usize> = Vec::new();
    for _ in 0..50 {
        let handle = shared
            .get_or_create(&account)
            .expect("every request for the account should succeed");
        ids.push(handle.client_id());
    }
    assert_eq!(shared.construction_count(), 1);
    for id in &ids {
        assert_eq!(*id, ids[0]);
    }
}

#[test]
fn shared_cache_isolates_keys() {
    let shared = SharedClientCache::new();
    let first_account = String::from("acct1");
    let second_account = String::from("acct3");
    let first = shared.get_or_create(&first_account).expect("first account should succeed");
    let second = shared.get_or_create(&second_account).expect("second account should succeed");
    assert_ne!(first.client_id(), second.client_id());
    assert_eq!(shared.construction_count(), 2);
}

#[test]
fn shared_cache_rejects_empty_identifier() {
    let shared = SharedClientCache::new();
    let empty = String::new();
    let outcome = shared.get_or_create(&empty);
    assert!(matches!(outcome, Err(ConstructionError::EmptyAccountId)));
    assert_eq!(shared.construction_count(), 0);
}
