use token_auth::accounts::{AccountRepository, MemoryAccountStore};
use token_auth::auth_middleware::{presented_credential, AuthMiddleware, Attached, Presented};
use token_auth::auth_service::{add_account, refresh_entry_for, AccountService, AuthService};
use token_auth::clock::unix_now;
use token_auth::error::{DbError, RedisError, ServiceError};
use token_auth::jwt::{parse, JwtUtils, REFRESH_TOKEN_EXPIRY};
use token_auth::ledger::{MemoryLedger, TokenRedisRepository};
use token_auth::model::{Account, NewAccount};
use token_auth::password::{hash_password, verify_password};
use token_auth::token_service::TokenService;

const ACCESS: &str = "access-secret";
const REFRESH: &str = "refresh-secret";

fn login_info(username: &str, password: &str) -> NewAccount {
    NewAccount { username: username.to_string(), password: password.to_string() }
}

fn auth() -> AuthService {
    AuthService::new(ACCESS.to_string(), REFRESH.to_string())
}

#[test]
fn password_hash_verifies_and_differs_each_time() {
    let a = hash_password("s3cret").unwrap();
    let b = hash_password("s3cret").unwrap();
    assert_ne!(a, b);
    assert!(verify_password("s3cret", &a).is_ok());
    assert!(verify_password("wrong", &a).is_err());
    assert!(verify_password("s3cret", "not a digest").is_err());
}

#[test]
fn register_twice_conflicts() {
    let mut store = MemoryAccountStore::new();
    assert_eq!(auth().add_account(&mut store, login_info("alice", "pw")), Ok(1));
    assert_eq!(auth().add_account(&mut store, login_info("alice", "other")), Err(ServiceError::Conflict));
    let account = store.get_account_by_username("alice").unwrap();
    assert_eq!(account.id, 1);
    assert_eq!(account.role, "user");
    assert!(verify_password("pw", account.password.as_deref().unwrap()).is_ok());
}

#[test]
fn register_with_unreachable_store_is_database_error() {
    let mut store = MemoryAccountStore::new();
    store.set_reachable(false);
    assert_eq!(auth().add_account(&mut store, login_info("bob", "pw")), Err(ServiceError::DatabaseError));
}

#[test]
fn legacy_add_account_maps_to_db_errors() {
    let mut store = MemoryAccountStore::new();
    assert_eq!(add_account(&mut store, login_info("carol", "pw")), Ok(1));
    assert_eq!(add_account(&mut store, login_info("carol", "pw")), Err(DbError::Existed));
}

#[test]
fn login_outcomes() {
    let mut store = MemoryAccountStore::new();
    let mut ledger = MemoryLedger::new();
    let now = unix_now();
    auth().add_account(&mut store, login_info("alice", "pw")).unwrap();
    assert_eq!(
        auth().verify_account(&store, &mut ledger, login_info("alice", "nope"), now).unwrap_err(),
        ServiceError::UnAuthorizedError
    );
    assert_eq!(
        auth().verify_account(&store, &mut ledger, login_info("nobody", "pw"), now).unwrap_err(),
        ServiceError::NotFound
    );
    let token = auth().verify_account(&store, &mut ledger, login_info("alice", "pw"), now).unwrap();
    assert_eq!(ledger.is_refresh_token_valid(&token.refresh_token, now), Ok(true));
    let access = parse(&token.access_token, ACCESS).unwrap();
    assert_eq!(access.id, "1");
    assert_eq!(access.role, "user");
    let refresh = parse(&token.refresh_token, REFRESH).unwrap();
    assert_eq!(refresh.exp, now + REFRESH_TOKEN_EXPIRY);
}

#[test]
fn login_with_unreachable_ledger_is_redis_error() {
    let mut store = MemoryAccountStore::new();
    let mut ledger = MemoryLedger::new();
    auth().add_account(&mut store, login_info("alice", "pw")).unwrap();
    ledger.set_reachable(false);
    assert_eq!(
        auth().verify_account(&store, &mut ledger, login_info("alice", "pw"), unix_now()).unwrap_err(),
        ServiceError::RedisError
    );
}

#[test]
fn logout_then_refresh_is_unauthorized() {
    let mut store = MemoryAccountStore::new();
    let mut ledger = MemoryLedger::new();
    let now = unix_now();
    auth().add_account(&mut store, login_info("alice", "pw")).unwrap();
    let token = auth().verify_account(&store, &mut ledger, login_info("alice", "pw"), now).unwrap();
    let service = TokenService::new(ACCESS.to_string(), REFRESH.to_string());
    let fresh = service.verify_refresh_token(&ledger, &token.refresh_token, now).unwrap();
    assert_eq!(parse(&fresh, ACCESS).unwrap().id, "1");
    assert_eq!(auth().logout(&mut ledger, &token.refresh_token), Ok(()));
    assert_eq!(
        service.verify_refresh_token(&ledger, &token.refresh_token, now).unwrap_err(),
        ServiceError::UnAuthorizedError
    );
    assert_eq!(auth().logout(&mut ledger, &token.refresh_token), Ok(()));
}

#[test]
fn deleted_entry_rejects_unexpired_refresh_token() {
    let mut ledger = MemoryLedger::new();
    let now = unix_now();
    let token = JwtUtils::generate_refresh_token("9", "admin", REFRESH, now).unwrap();
    ledger.store_refresh_token("9", &token, 60, now).unwrap();
    ledger.delete_refresh_token(&token).unwrap();
    let service = TokenService::new(ACCESS.to_string(), REFRESH.to_string());
    assert_eq!(service.verify_refresh_token(&ledger, &token, now).unwrap_err(), ServiceError::UnAuthorizedError);
}

#[test]
fn refresh_outcomes_after_lookup() {
    let service = TokenService::new(ACCESS.to_string(), REFRESH.to_string());
    let now = unix_now();
    let token = JwtUtils::generate_refresh_token("9", "admin", REFRESH, now).unwrap();
    assert_eq!(service.refresh_after_lookup(&token, Err(RedisError::PoolError), now), Err(ServiceError::RedisError));
    assert_eq!(service.refresh_after_lookup(&token, Ok(false), now), Err(ServiceError::UnAuthorizedError));
    let fresh = service.refresh_after_lookup(&token, Ok(true), now).unwrap();
    let claims = parse(&fresh, ACCESS).unwrap();
    assert_eq!(claims.id, "9");
    assert_eq!(claims.role, "admin");
    assert_eq!(
        service.refresh_after_lookup(&token, Ok(true), now + REFRESH_TOKEN_EXPIRY),
        Err(ServiceError::UnAuthorizedError)
    );
    let forged = JwtUtils::generate_refresh_token("9", "admin", ACCESS, now).unwrap();
    assert_eq!(service.refresh_after_lookup(&forged, Ok(true), now), Err(ServiceError::UnAuthorizedError));
}

#[test]
fn access_check_ignores_unreachable_ledger() {
    let mut ledger = MemoryLedger::new();
    ledger.set_reachable(false);
    let stage = AuthMiddleware::new(ACCESS.to_string(), REFRESH.to_string()).new_transform();
    let now = unix_now();
    let token = JwtUtils::generate_access_token("4", "user", ACCESS, now).unwrap();
    let header = format!("Bearer {}", token);
    match stage.call(&ledger, "/api/auth/me", None, Some(header), now).unwrap() {
        Attached::Identity(claims) => {
            assert_eq!(claims.id, "4");
            assert_eq!(claims.role, "user");
        }
        Attached::AccessToken(_) => panic!("expected an identity"),
    }
}

#[test]
fn interceptor_rejections() {
    let mut ledger = MemoryLedger::new();
    let stage = AuthMiddleware::new(ACCESS.to_string(), REFRESH.to_string()).new_transform();
    let now = unix_now();
    assert_eq!(stage.call(&ledger, "/api/auth/me", None, None, now).unwrap_err(), ServiceError::UnAuthorizedError);
    assert_eq!(
        stage.call(&ledger, "/api/auth/me", None, Some("Bearer junk".to_string()), now).unwrap_err(),
        ServiceError::UnAuthorizedError
    );
    assert_eq!(stage.call(&ledger, "/api/auth/refresh", None, None, now).unwrap_err(), ServiceError::UnAuthorizedError);
    let token = JwtUtils::generate_refresh_token("2", "user", REFRESH, now).unwrap();
    assert_eq!(
        stage.call(&ledger, "/api/auth/refresh", Some(token.clone()), None, now).unwrap_err(),
        ServiceError::UnAuthorizedError
    );
    ledger.store_refresh_token("2", &token, 60, now).unwrap();
    match stage.call(&ledger, "/api/auth/refresh", Some(token.clone()), None, now).unwrap() {
        Attached::AccessToken(fresh) => assert_eq!(parse(&fresh, ACCESS).unwrap().id, "2"),
        Attached::Identity(_) => panic!("expected a new access token"),
    }
    ledger.set_reachable(false);
    assert_eq!(
        stage.call(&ledger, "/api/auth/refresh", Some(token), None, now).unwrap_err(),
        ServiceError::RedisError
    );
}

#[test]
fn account_lookup_by_id() {
    let mut store = MemoryAccountStore::new();
    auth().add_account(&mut store, login_info("alice", "pw")).unwrap();
    auth().add_account(&mut store, login_info("bob", "pw")).unwrap();
    let service = AccountService::new();
    assert_eq!(service.get_account_info(&store, "2").unwrap().username, "bob");
    assert_eq!(service.get_account_info(&store, "3").unwrap_err(), ServiceError::NotFound);
    assert_eq!(service.get_account_info(&store, "x").unwrap_err(), ServiceError::InvalidIdFormat);
    store.set_reachable(false);
    assert_eq!(service.get_account_info(&store, "1").unwrap_err(), ServiceError::DatabaseError);
}

#[test]
fn status_codes() {
    assert_eq!(ServiceError::UnAuthorizedError.status_code(), 401);
    assert_eq!(ServiceError::Forbidden.status_code(), 403);
    assert_eq!(ServiceError::NotFound.status_code(), 404);
    assert_eq!(ServiceError::Conflict.status_code(), 409);
    assert_eq!(ServiceError::RedisError.status_code(), 500);
    assert_eq!(ServiceError::InternalError.status_code(), 500);
    assert_eq!(DbError::Existed.status_code(), 409);
    assert_eq!(DbError::NotFound.status_code(), 404);
    assert_eq!(DbError::InsertError.status_code(), 500);
}

#[test]
fn presented_credential_by_path() {
    assert_eq!(
        presented_credential("/api/auth/refresh", None, Some("Bearer x".to_string())).unwrap_err(),
        ServiceError::UnAuthorizedError
    );
    match presented_credential("/api/auth/refresh", Some("tok".to_string()), None).unwrap() {
        Presented::RefreshToken(t) => assert_eq!(t, "tok"),
        Presented::Authorization(_) => panic!("expected the cookie"),
    }
    match presented_credential("/api/auth/me", Some("tok".to_string()), Some("h".to_string())).unwrap() {
        Presented::Authorization(h) => assert_eq!(h.as_deref(), Some("h")),
        Presented::RefreshToken(_) => panic!("expected the header"),
    }
}

#[test]
fn login_ledger_entry_uses_id_and_refresh_lifetime() {
    let account = Account { id: -12, username: "a".to_string(), password: None, role: "user".to_string() };
    let entry = refresh_entry_for(&account);
    assert_eq!(entry.user_id, "-12");
    assert_eq!(entry.ttl, 60);
}

#[test]
fn unreachable_store_lookup_is_database_error() {
    let store_empty = {
        let mut s = MemoryAccountStore::new();
        s.set_reachable(false);
        s
    };
    assert_eq!(
        AccountService::new().get_account_info(&store_empty, "77").unwrap_err(),
        ServiceError::DatabaseError
    );
}
