use authcore::error::StoreError;
use authcore::store::{CredentialRecord, MemoryStore};

fn record(id: &str, name: &str, email: &str, hash: &str) -> CredentialRecord {
    CredentialRecord {
        user_id: id.to_owned(),
        display_name: name.to_owned(),
        email: email.to_owned(),
        password_hash: hash.to_owned(),
        created_at: 42,
    }
}

#[test]
fn new_store_is_empty() {
    let store = MemoryStore::new();
    assert_eq!(store.len(), 0);
    assert_eq!(store.find_hash_by_email("a@x.com"), Err(StoreError::NotFound));
}

#[test]
fn created_record_is_found_by_email() {
    let mut store = MemoryStore::new();
    assert_eq!(store.create(record("1", "alice", "a@x.com", "hash-a")), Ok(()));
    assert_eq!(store.create(record("2", "bob", "b@x.com", "hash-b")), Ok(()));
    assert_eq!(store.len(), 2);
    assert_eq!(store.find_hash_by_email("a@x.com"), Ok("hash-a".to_owned()));
    assert_eq!(store.find_hash_by_email("b@x.com"), Ok("hash-b".to_owned()));
    assert_eq!(store.find_hash_by_email("c@x.com"), Err(StoreError::NotFound));
}

#[test]
fn duplicate_email_is_refused_and_changes_nothing() {
    let mut store = MemoryStore::new();
    assert_eq!(store.create(record("1", "alice", "a@x.com", "hash-a")), Ok(()));
    assert_eq!(
        store.create(record("2", "bob", "a@x.com", "hash-b")),
        Err(StoreError::DuplicateEmail)
    );
    assert_eq!(store.len(), 1);
    assert_eq!(store.find_hash_by_email("a@x.com"), Ok("hash-a".to_owned()));
    assert_eq!(store.records[0].user_id, "1");
    assert_eq!(store.records[0].display_name, "alice");
    assert_eq!(store.records[0].created_at, 42);
}

#[test]
fn same_email_twice_gives_one_success_and_one_duplicate() {
    let mut store = MemoryStore::new();
    let first = store.create(record("1", "alice", "a@x.com", "hash-a"));
    let second = store.create(record("2", "alice", "a@x.com", "hash-a"));
    assert_eq!(first, Ok(()));
    assert_eq!(second, Err(StoreError::DuplicateEmail));
}

#[test]
fn emails_are_compared_exactly() {
    let mut store = MemoryStore::new();
    assert_eq!(store.create(record("1", "alice", "a@x.com", "hash-a")), Ok(()));
    assert_eq!(store.create(record("2", "alice", "A@x.com", "hash-b")), Ok(()));
    assert_eq!(store.find_hash_by_email("A@x.com"), Ok("hash-b".to_owned()));
    assert_eq!(store.find_hash_by_email("a@x.co"), Err(StoreError::NotFound));
}
