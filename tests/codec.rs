use token_auth::clock::unix_now;
use token_auth::error::ServiceError;
use token_auth::jwt::{
    claims_from_decoded, mint, parse, JwtUtils, TokenError, ACCESS_TOKEN_EXPIRY,
    REFRESH_TOKEN_EXPIRY,
};
use token_auth::token_service::TokenService;

const ACCESS: &str = "access-secret";
const REFRESH: &str = "refresh-secret";

#[test]
fn mint_then_parse_recovers_subject_and_role() {
    let now = unix_now();
    let token = mint("42", "admin", 30, now, ACCESS).unwrap();
    let claims = parse(&token, ACCESS).unwrap();
    assert_eq!(claims.id, "42");
    assert_eq!(claims.role, "admin");
    assert_eq!(claims.exp, now + 30);
}

#[test]
fn mint_then_parse_keeps_unusual_text() {
    let token = mint("\"quoted\" \u{e9}", "r\\o/le", 5, 1_000, ACCESS).unwrap();
    let claims = parse(&token, ACCESS).unwrap();
    assert_eq!(claims.id, "\"quoted\" \u{e9}");
    assert_eq!(claims.role, "r\\o/le");
    assert_eq!(claims.exp, 1_005);
}

#[test]
fn parse_with_wrong_secret_is_bad_signature() {
    let token = mint("7", "user", 60, unix_now(), ACCESS).unwrap();
    assert_eq!(parse(&token, REFRESH).unwrap_err(), TokenError::BadSignature);
}

#[test]
fn parse_of_garbage_is_malformed() {
    assert_eq!(parse("not a token", ACCESS).unwrap_err(), TokenError::Malformed);
    assert_eq!(parse("", ACCESS).unwrap_err(), TokenError::Malformed);
    assert_eq!(parse("a.b.c", ACCESS).unwrap_err(), TokenError::Malformed);
}

#[test]
fn parse_does_not_check_expiry() {
    let token = mint("7", "user", 1, 1_000, ACCESS).unwrap();
    let claims = parse(&token, ACCESS).unwrap();
    assert_eq!(claims.exp, 1_001);
}

#[test]
fn parse_rejects_token_without_role_claim() {
    let mut claims = serde_json::Map::new();
    claims.insert("id".to_string(), serde_json::Value::from("7"));
    claims.insert("exp".to_string(), serde_json::Value::from(4_000_000_000u64));
    let key = jsonwebtoken::EncodingKey::from_secret(ACCESS.as_bytes());
    let token = jsonwebtoken::encode(&jsonwebtoken::Header::default(), &claims, &key).unwrap();
    assert_eq!(parse(&token, ACCESS).unwrap_err(), TokenError::Malformed);
}

#[test]
fn claims_from_decoded_cases() {
    let full = claims_from_decoded(Ok((Some("1".to_string()), Some("user".to_string()), Some(9))))
        .unwrap();
    assert_eq!(full.id, "1");
    assert_eq!(full.role, "user");
    assert_eq!(full.exp, 9);
    assert_eq!(
        claims_from_decoded(Ok((Some("1".to_string()), None, Some(9)))).unwrap_err(),
        TokenError::Malformed
    );
    assert_eq!(
        claims_from_decoded(Ok((Some("1".to_string()), Some("user".to_string()), None))).unwrap_err(),
        TokenError::Malformed
    );
    assert_eq!(claims_from_decoded(Err(true)).unwrap_err(), TokenError::BadSignature);
    assert_eq!(claims_from_decoded(Err(false)).unwrap_err(), TokenError::Malformed);
}

#[test]
fn access_token_valid_before_expiry_and_refused_after() {
    let service = TokenService::new(ACCESS.to_string(), REFRESH.to_string());
    let issued = 1_000_000;
    let token = JwtUtils::generate_access_token("5", "user", ACCESS, issued).unwrap();
    let claims = service.verify_access_token(&token, issued).unwrap();
    assert_eq!(claims.id, "5");
    assert_eq!(claims.role, "user");
    assert_eq!(claims.exp, issued + ACCESS_TOKEN_EXPIRY);
    assert!(service.verify_access_token(&token, issued + ACCESS_TOKEN_EXPIRY - 1).is_ok());
    assert_eq!(
        service.verify_access_token(&token, issued + ACCESS_TOKEN_EXPIRY).unwrap_err(),
        ServiceError::UnAuthorizedError
    );
}

#[test]
fn refresh_token_is_not_an_access_token() {
    let service = TokenService::new(ACCESS.to_string(), REFRESH.to_string());
    let now = unix_now();
    let token = JwtUtils::generate_refresh_token("5", "user", REFRESH, now).unwrap();
    assert_eq!(service.verify_access_token(&token, now).unwrap_err(), ServiceError::UnAuthorizedError);
    let claims = parse(&token, REFRESH).unwrap();
    assert_eq!(claims.exp, now + REFRESH_TOKEN_EXPIRY);
}

#[test]
fn refresh_exp_is_sixty_seconds() {
    assert_eq!(JwtUtils::get_refresh_exp(), 60);
}

#[test]
fn clock_is_after_2020() {
    assert!(unix_now() > 1_577_836_800);
}

#[test]
fn equal_inputs_mint_equal_tokens() {
    let a = JwtUtils::generate_access_token("3", "user", ACCESS, 5_000).unwrap();
    let b = JwtUtils::generate_access_token("3", "user", ACCESS, 5_000).unwrap();
    assert_eq!(a, b);
    let r1 = JwtUtils::generate_refresh_token("3", "user", REFRESH, 5_000).unwrap();
    let r2 = JwtUtils::generate_refresh_token("3", "user", REFRESH, 5_000).unwrap();
    assert_eq!(r1, r2);
    assert_ne!(a, r1);
}
