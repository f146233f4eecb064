use torn_key_pool::domain::KeyDomain;
use torn_key_pool::key::PgKey;
use torn_key_pool::retry::{next_step, AttemptOutcome, DbError, PgStorageError, RetryStep};
use torn_key_pool::storage::MemKeyPoolStorage;

const T0: i64 = 1_700_000_000;

fn setup() -> MemKeyPoolStorage {
    let mut storage = MemKeyPoolStorage::new(50);
    storage
        .add_key(1, None, "AAAAAAAAAAAAAAAA".to_string(), true, false, T0)
        .unwrap();
    storage
}

fn uses_of(storage: &MemKeyPoolStorage, id: i32) -> i16 {
    storage.key_by_id(id).unwrap().uses
}

fn conflict() -> DbError {
    DbError {
        code: Some("40001".to_string()),
        message: "could not serialize access".to_string(),
    }
}

#[test]
fn acquire_one() {
    let mut storage = setup();

    if let Err(e) = storage.acquire_key(KeyDomain::Public) {
        panic!("Acquiring key failed: {:?}", e);
    }
}

#[test]
fn test_concurrent() {
    let mut storage = setup();
    let before = uses_of(&storage, 1);
    let mut succeeded: i32 = 0;

    for _ in 0..30 {
        // Each caller first loses a serialisation race, then retries.
        let mut conflicted = false;
        loop {
            let outcome = if !conflicted {
                conflicted = true;
                AttemptOutcome::Failed(conflict())
            } else {
                match storage.acquire_key_at(KeyDomain::Public, T0 + 5) {
                    Ok(k) => AttemptOutcome::Committed(Some(k)),
                    Err(PgStorageError::Unavailable(_)) => AttemptOutcome::Committed(None),
                    Err(PgStorageError::Pg(e)) => AttemptOutcome::Failed(e),
                }
            };
            match next_step(KeyDomain::Public, outcome) {
                RetryStep::Finish(result) => {
                    result.unwrap();
                    succeeded += 1;
                    break;
                }
                RetryStep::Retry(ms) => assert!((1..50).contains(&ms)),
            }
        }
    }

    let after = uses_of(&storage, 1);
    assert_eq!(succeeded, 30);
    assert_eq!(after, before + 30);
}

#[test]
fn allocations_never_exceed_limit() {
    let mut storage = MemKeyPoolStorage::new(5);
    for user in 1..=3 {
        storage
            .add_key(user, None, format!("KEY{:013}", user), true, false, T0)
            .unwrap();
    }
    for _ in 0..15 {
        storage.acquire_key_at(KeyDomain::Public, T0 + 1).unwrap();
    }
    for id in 1..=3 {
        assert_eq!(uses_of(&storage, id), 5);
    }
    match storage.acquire_key_at(KeyDomain::Public, T0 + 2) {
        Err(PgStorageError::Unavailable(d)) => assert_eq!(d, KeyDomain::Public),
        other => panic!("expected Unavailable, got {:?}", other),
    }
}

#[test]
fn user_domain_needs_user_flag() {
    let mut storage = MemKeyPoolStorage::new(10);
    storage
        .add_key(7, Some(3), "BBBBBBBBBBBBBBBB".to_string(), false, false, T0)
        .unwrap();
    assert!(matches!(
        storage.acquire_key_at(KeyDomain::User(7), T0),
        Err(PgStorageError::Unavailable(KeyDomain::User(7)))
    ));
    assert!(matches!(
        storage.acquire_key_at(KeyDomain::Faction(3), T0),
        Err(PgStorageError::Unavailable(KeyDomain::Faction(3)))
    ));
    assert!(storage.acquire_key_at(KeyDomain::Public, T0).is_ok());
}

#[test]
fn faction_domain_needs_faction() {
    let mut storage = MemKeyPoolStorage::new(10);
    storage
        .add_key(7, None, "CCCCCCCCCCCCCCCC".to_string(), true, true, T0)
        .unwrap();
    storage
        .add_key(8, Some(4), "DDDDDDDDDDDDDDDD".to_string(), true, true, T0 + 30)
        .unwrap();
    let k = storage.acquire_key_at(KeyDomain::Faction(4), T0 + 40).unwrap();
    assert_eq!(k.id, 2);
    assert_eq!(k.faction_id, Some(4));
    assert!(storage.acquire_key_at(KeyDomain::Faction(5), T0 + 40).is_err());
    let u = storage.acquire_key_at(KeyDomain::User(7), T0 + 40).unwrap();
    assert_eq!(u.id, 1);
}

#[test]
fn exhausted_key_resets_in_next_minute() {
    let mut storage = MemKeyPoolStorage::new(2);
    storage
        .add_key(1, None, "EEEEEEEEEEEEEEEE".to_string(), true, false, 120)
        .unwrap();
    storage.acquire_key_at(KeyDomain::Public, 125).unwrap();
    storage.acquire_key_at(KeyDomain::Public, 130).unwrap();
    assert_eq!(uses_of(&storage, 1), 2);
    assert!(storage.acquire_key_at(KeyDomain::Public, 179).is_err());
    let k = storage.acquire_key_at(KeyDomain::Public, 180).unwrap();
    assert_eq!(k.uses, 1);
    assert_eq!(k.last_used, 180);
    assert_eq!(uses_of(&storage, 1), 1);
}

#[test]
fn least_recently_used_goes_first() {
    let mut storage = MemKeyPoolStorage::new(10);
    storage
        .add_key(1, None, "FFFFFFFFFFFFFFFF".to_string(), true, false, T0 + 20)
        .unwrap();
    storage
        .add_key(2, None, "GGGGGGGGGGGGGGGG".to_string(), true, false, T0 + 10)
        .unwrap();
    let first = storage.acquire_key_at(KeyDomain::Public, T0 + 30).unwrap();
    assert_eq!(first.id, 2);
    assert_eq!(first.value(), "GGGGGGGGGGGGGGGG");
    let second = storage.acquire_key_at(KeyDomain::Public, T0 + 31).unwrap();
    assert_eq!(second.id, 1);
}

#[test]
fn equal_last_used_prefers_lower_id() {
    let mut storage = MemKeyPoolStorage::new(10);
    for user in 1..=3 {
        storage
            .add_key(user, None, format!("KEY{:013}", user), true, false, T0)
            .unwrap();
    }
    assert_eq!(storage.acquire_key_at(KeyDomain::Public, T0 + 1).unwrap().id, 1);
    assert_eq!(storage.acquire_key_at(KeyDomain::Public, T0 + 2).unwrap().id, 2);
    assert_eq!(storage.acquire_key_at(KeyDomain::Public, T0 + 3).unwrap().id, 3);
    assert_eq!(storage.acquire_key_at(KeyDomain::Public, T0 + 3).unwrap().id, 1);
}

#[test]
fn empty_pool_is_unavailable() {
    let mut storage = MemKeyPoolStorage::new(10);
    assert!(matches!(
        storage.acquire_key(KeyDomain::Public),
        Err(PgStorageError::Unavailable(KeyDomain::Public))
    ));
}

#[test]
fn zero_limit_hands_out_nothing() {
    let mut storage = MemKeyPoolStorage::new(0);
    storage
        .add_key(1, None, "HHHHHHHHHHHHHHHH".to_string(), true, false, T0)
        .unwrap();
    assert!(storage.acquire_key_at(KeyDomain::Public, T0 + 600).is_err());
}

#[test]
fn flag_twice_deletes_once() {
    let mut storage = setup();
    let key = storage.acquire_key_at(KeyDomain::Public, T0).unwrap();
    assert!(storage.flag_key(&key, 2));
    assert_eq!(storage.len(), 0);
    assert!(!storage.flag_key(&key, 2));
    assert_eq!(storage.len(), 0);
}

#[test]
fn transient_code_keeps_key() {
    let mut storage = setup();
    let key = storage.acquire_key_at(KeyDomain::Public, T0).unwrap();
    assert!(!storage.flag_key(&key, 5));
    assert_eq!(storage.len(), 1);
    assert!(storage.flag_key(&key, 13));
    assert!(storage.key_by_id(key.id).is_none());
}

#[test]
fn configured_codes_decide_deletion() {
    let mut storage = MemKeyPoolStorage::with_invalidating_codes(10, vec![5]);
    storage
        .add_key(1, None, "IIIIIIIIIIIIIIII".to_string(), true, false, T0)
        .unwrap();
    let key = storage.acquire_key_at(KeyDomain::Public, T0).unwrap();
    assert!(!storage.is_invalidating(2));
    assert!(!storage.flag_key(&key, 2));
    assert!(storage.flag_key(&key, 5));
}

#[test]
fn domain_params_bind_identifiers() {
    let p = KeyDomain::User(17).params();
    assert_eq!(p.user_id, Some(17));
    assert_eq!(p.faction_id, None);
    let p = KeyDomain::Faction(9).params();
    assert_eq!(p.user_id, None);
    assert_eq!(p.faction_id, Some(9));
    let p = KeyDomain::Public.params();
    assert_eq!(p.user_id, None);
    assert_eq!(p.faction_id, None);
}

#[test]
fn domain_admits_by_flags() {
    let key = PgKey {
        id: 1,
        user_id: 5,
        faction_id: Some(6),
        key: "JJJJJJJJJJJJJJJJ".to_string(),
        uses: 0,
        user: true,
        faction: false,
        last_used: 0,
    };
    assert!(KeyDomain::Public.admits(&key));
    assert!(KeyDomain::User(5).admits(&key));
    assert!(!KeyDomain::User(6).admits(&key));
    assert!(!KeyDomain::Faction(6).admits(&key));
}

#[test]
fn uses_count_only_in_same_minute() {
    let key = PgKey {
        id: 1,
        user_id: 5,
        faction_id: None,
        key: "KKKKKKKKKKKKKKKK".to_string(),
        uses: 9,
        user: true,
        faction: false,
        last_used: 119,
    };
    assert_eq!(key.uses_at(60), 9);
    assert_eq!(key.uses_at(120), 0);
    assert_eq!(torn_key_pool::key::minute_bucket(-1), -1);
    assert_eq!(torn_key_pool::key::minute_bucket(125), 2);
}

#[test]
fn conflict_is_retried() {
    match next_step(KeyDomain::Public, AttemptOutcome::Failed(conflict())) {
        RetryStep::Retry(ms) => assert!((1..50).contains(&ms)),
        other => panic!("expected a retry, got {:?}", other),
    }
}

#[test]
fn other_failure_is_fatal() {
    let e = DbError {
        code: Some("23505".to_string()),
        message: "duplicate key".to_string(),
    };
    assert!(!e.is_serialization_failure());
    match next_step(KeyDomain::Public, AttemptOutcome::Failed(e)) {
        RetryStep::Finish(Err(PgStorageError::Pg(e))) => assert_eq!(e.code.as_deref(), Some("23505")),
        other => panic!("expected a storage error, got {:?}", other),
    }
    let no_code = DbError { code: None, message: "connection reset".to_string() };
    assert!(matches!(
        next_step(KeyDomain::Public, AttemptOutcome::Failed(no_code)),
        RetryStep::Finish(Err(PgStorageError::Pg(_)))
    ));
}

#[test]
fn committed_attempt_finishes() {
    assert!(matches!(
        next_step(KeyDomain::User(3), AttemptOutcome::Committed(None)),
        RetryStep::Finish(Err(PgStorageError::Unavailable(KeyDomain::User(3))))
    ));
    let mut storage = setup();
    let k = storage.acquire_key_at(KeyDomain::Public, T0).unwrap();
    match next_step(KeyDomain::Public, AttemptOutcome::Committed(Some(k))) {
        RetryStep::Finish(Ok(k)) => assert_eq!(k.uses, 1),
        other => panic!("expected the key, got {:?}", other),
    }
}
