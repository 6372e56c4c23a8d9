use token_auth::error::RedisError;
use token_auth::ledger::{ledger_key, ledger_value, MemoryLedger, TokenRedisRepository};

#[test]
fn stored_token_exists_until_it_expires() {
    let mut ledger = MemoryLedger::new();
    ledger.store_refresh_token("3", "tok", 60, 1_000).unwrap();
    assert_eq!(ledger.is_refresh_token_valid("tok", 1_000), Ok(true));
    assert_eq!(ledger.is_refresh_token_valid("tok", 1_059), Ok(true));
    assert_eq!(ledger.is_refresh_token_valid("tok", 1_060), Ok(false));
    assert_eq!(ledger.is_refresh_token_valid("other", 1_000), Ok(false));
}

#[test]
fn storing_again_replaces_the_entry() {
    let mut ledger = MemoryLedger::new();
    ledger.store_refresh_token("3", "tok", 10, 1_000).unwrap();
    ledger.store_refresh_token("3", "tok", 100, 1_000).unwrap();
    assert_eq!(ledger.is_refresh_token_valid("tok", 1_050), Ok(true));
}

#[test]
fn non_positive_ttl_is_refused() {
    let mut ledger = MemoryLedger::new();
    assert_eq!(ledger.store_refresh_token("3", "tok", 0, 1_000), Err(RedisError::RedisError));
    assert_eq!(ledger.store_refresh_token("3", "tok", -5, 1_000), Err(RedisError::RedisError));
    assert_eq!(ledger.is_refresh_token_valid("tok", 1_000), Ok(false));
}

#[test]
fn delete_is_idempotent() {
    let mut ledger = MemoryLedger::new();
    ledger.store_refresh_token("3", "a", 60, 1_000).unwrap();
    ledger.store_refresh_token("4", "b", 60, 1_000).unwrap();
    assert_eq!(ledger.delete_refresh_token("a"), Ok(()));
    assert_eq!(ledger.delete_refresh_token("a"), Ok(()));
    assert_eq!(ledger.delete_refresh_token("never"), Ok(()));
    assert_eq!(ledger.is_refresh_token_valid("a", 1_000), Ok(false));
    assert_eq!(ledger.is_refresh_token_valid("b", 1_000), Ok(true));
}

#[test]
fn unreachable_ledger_fails_distinguishably() {
    let mut ledger = MemoryLedger::new();
    ledger.store_refresh_token("3", "tok", 60, 1_000).unwrap();
    ledger.set_reachable(false);
    assert!(ledger.is_refresh_token_valid("tok", 1_000).is_err());
    assert!(ledger.delete_refresh_token("tok").is_err());
    assert!(ledger.store_refresh_token("3", "new", 60, 1_000).is_err());
    ledger.set_reachable(true);
    assert_eq!(ledger.is_refresh_token_valid("tok", 1_000), Ok(true));
    assert_eq!(ledger.is_refresh_token_valid("new", 1_000), Ok(false));
}

#[test]
fn store_key_and_value_format() {
    assert_eq!(ledger_key("abc.def"), "refresh_token:abc.def");
    assert_eq!(ledger_value("12", 60), "{\"user_id\": 12, \"exp\": 60}");
}
