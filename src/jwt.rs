//! Signed, time-bound tokens: minting and parsing on top of jsonwebtoken.
//!
//! A token carries the claims `id`, `role` and `exp` (Unix seconds) and is
//! signed with HS256 under a secret of its class; access and refresh tokens
//! use different secrets. Parsing checks structure and signature only: the
//! caller decides on expiry.

use vstd::prelude::*;

verus! {

#[verifier::external_type_specification]
#[verifier::external_body]
pub struct ExJwtError(jsonwebtoken::errors::Error);

/// Lifetime of an access token, in seconds.
pub const ACCESS_TOKEN_EXPIRY: u64 = 20;

/// Lifetime of a refresh token and of its ledger entry, in seconds.
pub const REFRESH_TOKEN_EXPIRY: u64 = 60;

/// The identity carried by a token.
#[derive(Debug, Clone)]
pub struct Claims {
    pub id: String,
    pub role: String,
    pub exp: u64,
}

/// Claims as a mathematical value.
pub struct ClaimsView {
    pub id: Seq<char>,
    pub role: Seq<char>,
    pub exp: u64,
}

impl View for Claims {
    type V = ClaimsView;

    open spec fn view(&self) -> ClaimsView {
        ClaimsView { id: self.id@, role: self.role@, exp: self.exp }
    }
}

/// Why a token could not be parsed.
#[derive(Debug, Clone, Copy, PartialEq, Eq, Structural)]
pub enum TokenError {
    /// Not a well-formed signed token carrying the three claims.
    Malformed,
    /// Well formed, but the signature does not match the secret.
    BadSignature,
}

/// What jsonwebtoken gives back for a token under a secret: the `id`,
/// `role` and `exp` claims where present with the right JSON type, or
/// `Err(true)` for a signature mismatch and `Err(false)` for any other
/// rejection.
pub uninterp spec fn jwt_decoding(token: Seq<char>, secret: Seq<char>) -> Result<
    (Option<Seq<char>>, Option<Seq<char>>, Option<u64>),
    bool,
>;

/// The token jsonwebtoken signs for the given claims and secret.
pub uninterp spec fn jwt_encoding(id: Seq<char>, role: Seq<char>, exp: u64, secret: Seq<char>) -> Seq<
    char,
>;

pub open spec fn opt_view(o: Option<String>) -> Option<Seq<char>> {
    match o {
        Some(s) => Some(s@),
        None => None,
    }
}

pub open spec fn decoded_view(d: Result<(Option<String>, Option<String>, Option<u64>), bool>) -> Result<
    (Option<Seq<char>>, Option<Seq<char>>, Option<u64>),
    bool,
> {
    match d {
        Ok((id, role, exp)) => Ok((opt_view(id), opt_view(role), exp)),
        Err(sig) => Err(sig),
    }
}

/// Relies on jsonwebtoken::encode with the default header (HS256) and an
/// HMAC key made from the secret's bytes: it succeeds (the key family
/// matches the header, HMAC takes a key of any length, and the header and
/// claims always serialise), the token depends on the claims and the secret
/// alone, and jsonwebtoken::decode under the same secret reads the same
/// claims back.
#[verifier::external_body]
fn jwt_encode(id: &str, role: &str, exp: u64, secret: &str) -> (r: Result<
    String,
    jsonwebtoken::errors::Error,
>)
    ensures
        r is Ok,
        r matches Ok(t) ==> t@ == jwt_encoding(id@, role@, exp, secret@),
        r matches Ok(t) ==> jwt_decoding(t@, secret@) == all_claims(id@, role@, exp),
{
    let mut claims = serde_json::Map::new();
    claims.insert("id".to_string(), serde_json::Value::from(id));
    claims.insert("role".to_string(), serde_json::Value::from(role));
    claims.insert("exp".to_string(), serde_json::Value::from(exp));
    let key = jsonwebtoken::EncodingKey::from_secret(secret.as_bytes());
    jsonwebtoken::encode(&jsonwebtoken::Header::default(), &claims, &key)
}

/// Relies on jsonwebtoken::decode under the default validation with the
/// expiry check turned off, and on serde_json's `as_str` / `as_u64` to read
/// the three claims; the error kind `InvalidSignature` becomes `Err(true)`.
#[verifier::external_body]
fn jwt_decode(token: &str, secret: &str) -> (r: Result<
    (Option<String>, Option<String>, Option<u64>),
    bool,
>)
    ensures
        decoded_view(r) == jwt_decoding(token@, secret@),
{
    let key = jsonwebtoken::DecodingKey::from_secret(secret.as_bytes());
    let mut validation = jsonwebtoken::Validation::default();
    validation.validate_exp = false;
    match jsonwebtoken::decode::<serde_json::Value>(token, &key, &validation) {
        Ok(d) => Ok((
            d.claims["id"].as_str().map(String::from),
            d.claims["role"].as_str().map(String::from),
            d.claims["exp"].as_u64(),
        )),
        Err(e) => Err(matches!(e.kind(), jsonwebtoken::errors::ErrorKind::InvalidSignature)),
    }
}

/// The claims, or the parse error, for what the decoder read.
pub open spec fn claims_outcome(
    d: Result<(Option<Seq<char>>, Option<Seq<char>>, Option<u64>), bool>,
) -> Result<ClaimsView, TokenError> {
    match d {
        Ok((Some(id), Some(role), Some(exp))) => Ok(ClaimsView { id, role, exp }),
        Ok(_) => Err(TokenError::Malformed),
        Err(sig) => if sig {
            Err(TokenError::BadSignature)
        } else {
            Err(TokenError::Malformed)
        },
    }
}

/// What parsing `token` under `secret` yields.
pub open spec fn parse_spec(token: Seq<char>, secret: Seq<char>) -> Result<ClaimsView, TokenError> {
    claims_outcome(jwt_decoding(token, secret))
}

pub open spec fn claims_result_view(r: Result<Claims, TokenError>) -> Result<ClaimsView, TokenError> {
    match r {
        Ok(c) => Ok(c@),
        Err(e) => Err(e),
    }
}

/// A decoding that found all three claims.
pub open spec fn all_claims(id: Seq<char>, role: Seq<char>, exp: u64) -> Result<
    (Option<Seq<char>>, Option<Seq<char>>, Option<u64>),
    bool,
> {
    Ok((Some(id), Some(role), Some(exp)))
}

/// `token` is what minting `id` and `role` with expiry `exp` under `secret`
/// produces.
pub open spec fn minted(
    token: Seq<char>,
    id: Seq<char>,
    role: Seq<char>,
    exp: u64,
    secret: Seq<char>,
) -> bool {
    &&& token == jwt_encoding(id, role, exp, secret)
    &&& jwt_decoding(token, secret) == all_claims(id, role, exp)
}

/// The claims for what the decoder read: all three claims present, or
/// `Malformed`; a signature mismatch is `BadSignature`.
pub fn claims_from_decoded(d: Result<(Option<String>, Option<String>, Option<u64>), bool>) -> (r:
    Result<Claims, TokenError>)
    ensures
        claims_result_view(r) == claims_outcome(decoded_view(d)),
{
    match d {
        Ok((Some(id), Some(role), Some(exp))) => Ok(Claims { id, role, exp }),
        Ok(_) => Err(TokenError::Malformed),
        Err(sig) => if sig {
            Err(TokenError::BadSignature)
        } else {
            Err(TokenError::Malformed)
        },
    }
}

/// Parses `token` under `secret`: its claims, `Malformed` when it is not a
/// well-formed signed token carrying them, `BadSignature` when the signature
/// does not match. Expiry is not checked here.
pub fn parse(token: &str, secret: &str) -> (r: Result<Claims, TokenError>)
    ensures
        claims_result_view(r) == parse_spec(token@, secret@),
{
    claims_from_decoded(jwt_decode(token, secret))
}

/// Mints a token for `subject_id` and `role` that expires `ttl` seconds
/// after `now`, signed under `secret`.
pub fn mint(subject_id: &str, role: &str, ttl: u64, now: u64, secret: &str) -> (r: Result<
    String,
    jsonwebtoken::errors::Error,
>)
    requires
        now + ttl <= u64::MAX,
    ensures
        r matches Ok(t) && minted(t@, subject_id@, role@, (now + ttl) as u64, secret@),
{
    jwt_encode(subject_id, role, now + ttl, secret)
}

/// Token issuance for the two token classes.
pub struct JwtUtils;

impl JwtUtils {
    /// Lifetime of a refresh token in seconds, as the ledger's TTL.
    pub fn get_refresh_exp() -> (r: i64)
        ensures
            r == REFRESH_TOKEN_EXPIRY,
    {
        REFRESH_TOKEN_EXPIRY as i64
    }

    /// An access token for `user_id` and `role`, valid for
    /// `ACCESS_TOKEN_EXPIRY` seconds from `now`, signed with the access secret.
    pub fn generate_access_token(user_id: &str, role: &str, access_secret: &str, now: u64) -> (r:
        Result<String, jsonwebtoken::errors::Error>)
        requires
            now + ACCESS_TOKEN_EXPIRY <= u64::MAX,
        ensures
            r matches Ok(t) && minted(
                t@,
                user_id@,
                role@,
                (now + ACCESS_TOKEN_EXPIRY) as u64,
                access_secret@,
            ),
    {
        mint(user_id, role, ACCESS_TOKEN_EXPIRY, now, access_secret)
    }

    /// A refresh token for `user_id` and `role`, valid for
    /// `REFRESH_TOKEN_EXPIRY` seconds from `now`, signed with the refresh secret.
    pub fn generate_refresh_token(user_id: &str, role: &str, refresh_secret: &str, now: u64) -> (r:
        Result<String, jsonwebtoken::errors::Error>)
        requires
            now + REFRESH_TOKEN_EXPIRY <= u64::MAX,
        ensures
            r matches Ok(t) && minted(
                t@,
                user_id@,
                role@,
                (now + REFRESH_TOKEN_EXPIRY) as u64,
                refresh_secret@,
            ),
    {
        mint(user_id, role, REFRESH_TOKEN_EXPIRY, now, refresh_secret)
    }
}

} // verus!
