use adls_backend_cache::cache::ClientCache;

#[test]
fn duplicate_shares_the_client() {
    let mut cache = ClientCache::new();
    let account = String::from("acct1");
    let handle = cache.get_or_create(&account).expect("construction should succeed");
    let duplicate = handle.duplicate();
    assert_eq!(duplicate.client_id(), handle.client_id());
    assert_eq!(cache.construction_count(), 1);
}

#[test]
fn shared_access_runs_the_operation() {
    let mut cache = ClientCache::new();
    let account = String::from("acct1");
    let handle = cache.get_or_create(&account).expect("construction should succeed");
    let n = handle.with_shared_access(|_client| 41usize + 1);
    assert_eq!(n, 42);
}

#[test]
fn shared_access_reaches_a_real_client() {
    let mut cache = ClientCache::new();
    let account = String::from("acct1");
    let handle = cache.get_or_create(&account).expect("construction should succeed");
    let built = handle.with_shared_access(|client| {
        // Deriving a file-system client performs no I/O; it only proves the
        // handle really guards an authenticated Data Lake client.
        let file_system = client.file_system_client("testcontainer");
        drop(file_system);
        true
    });
    assert!(built);
}

#[test]
fn duplicates_of_duplicates_agree() {
    let mut cache = ClientCache::new();
    let account = String::from("acct1");
    let handle = cache.get_or_create(&account).expect("construction should succeed");
    let second = handle.duplicate();
    let third = second.duplicate();
    assert_eq!(third.client_id(), handle.client_id());
}
