//! Verification of presented tokens.
//!
//! Access tokens are checked by signature and expiry alone. A refresh token
//! must also have a live ledger entry, which is looked up before the token
//! is parsed; a valid one buys a fresh access token.

use vstd::prelude::*;
use crate::error::{RedisError, ServiceError};
use crate::jwt::{
    minted, parse, parse_spec, Claims, ClaimsView, JwtUtils, ACCESS_TOKEN_EXPIRY,
};
use crate::ledger::{live, TokenRedisRepository};

verus! {

/// Checks the tokens that requests present, with the secret of each class.
pub struct TokenService {
    pub access_secret: String,
    pub refresh_secret: String,
}

/// The claims of `token` under `secret` while they have not expired at
/// `now`; `UnAuthorizedError` for a malformed, forged or expired token.
pub open spec fn unexpired_claims(token: Seq<char>, secret: Seq<char>, now: int) -> Result<
    ClaimsView,
    ServiceError,
> {
    match parse_spec(token, secret) {
        Ok(c) => if now >= c.exp {
            Err(ServiceError::UnAuthorizedError)
        } else {
            Ok(c)
        },
        Err(_) => Err(ServiceError::UnAuthorizedError),
    }
}

/// The identity a refresh token stands for, given what the ledger answered
/// about it: an unreachable ledger is `RedisError`, a missing entry
/// `UnAuthorizedError`, and then the token must parse and be unexpired.
pub open spec fn refresh_decision(
    token: Seq<char>,
    refresh_secret: Seq<char>,
    lookup: Result<bool, RedisError>,
    now: int,
) -> Result<ClaimsView, ServiceError> {
    match lookup {
        Err(_) => Err(ServiceError::RedisError),
        Ok(false) => Err(ServiceError::UnAuthorizedError),
        Ok(true) => unexpired_claims(token, refresh_secret, now),
    }
}

pub open spec fn service_claims_view(r: Result<Claims, ServiceError>) -> Result<
    ClaimsView,
    ServiceError,
> {
    match r {
        Ok(c) => Ok(c@),
        Err(e) => Err(e),
    }
}

impl TokenService {
    /// A service that checks access tokens with `access_secret` and refresh
    /// tokens with `refresh_secret`.
    pub fn new(access_secret: String, refresh_secret: String) -> (r: Self)
        ensures
            r.access_secret@ == access_secret@,
            r.refresh_secret@ == refresh_secret@,
    {
        TokenService { access_secret, refresh_secret }
    }

    /// `r` answers a refresh with `token` at `now` after the ledger said
    /// `lookup`: the decision's error, or a new access token for the
    /// decision's identity.
    pub open spec fn refresh_answer(
        &self,
        token: Seq<char>,
        lookup: Result<bool, RedisError>,
        now: u64,
        r: Result<String, ServiceError>,
    ) -> bool {
        match refresh_decision(token, self.refresh_secret@, lookup, now as int) {
            Err(e) => r == Err::<String, ServiceError>(e),
            Ok(c) => r matches Ok(t) && minted(
                t@,
                c.id,
                c.role,
                (now + ACCESS_TOKEN_EXPIRY) as u64,
                self.access_secret@,
            ),
        }
    }

    /// The claims of an access token that verifies under the access secret
    /// and has not expired at `now`; `UnAuthorizedError` otherwise. No
    /// store is consulted.
    pub fn verify_access_token(&self, token: &str, now: u64) -> (r: Result<Claims, ServiceError>)
        ensures
            service_claims_view(r) == unexpired_claims(token@, self.access_secret@, now as int),
    {
        match parse(token, self.access_secret.as_str()) {
            Ok(claims) => if now >= claims.exp {
                Err(ServiceError::UnAuthorizedError)
            } else {
                Ok(claims)
            },
            Err(_) => Err(ServiceError::UnAuthorizedError),
        }
    }

    /// Finishes a refresh once the ledger has answered `lookup` for `token`:
    /// rejects as `refresh_decision` says, else signs a new access token for
    /// the refresh token's identity, valid from `now`.
    pub fn refresh_after_lookup(
        &self,
        token: &str,
        lookup: Result<bool, RedisError>,
        now: u64,
    ) -> (r: Result<String, ServiceError>)
        requires
            now + ACCESS_TOKEN_EXPIRY <= u64::MAX,
        ensures
            self.refresh_answer(token@, lookup, now, r),
    {
        match lookup {
            Err(_) => Err(ServiceError::RedisError),
            Ok(false) => Err(ServiceError::UnAuthorizedError),
            Ok(true) => match parse(token, self.refresh_secret.as_str()) {
                Err(_) => Err(ServiceError::UnAuthorizedError),
                Ok(claims) => if now >= claims.exp {
                    Err(ServiceError::UnAuthorizedError)
                } else {
                    match JwtUtils::generate_access_token(
                        claims.id.as_str(),
                        claims.role.as_str(),
                        self.access_secret.as_str(),
                        now,
                    ) {
                        Ok(t) => Ok(t),
                        Err(_) => Err(ServiceError::JwtError),
                    }
                },
            },
        }
    }

    /// Verifies a refresh token against the ledger `repo` at `now` and, if it
    /// is honoured, returns a new access token. The ledger is asked first;
    /// when it cannot answer the result is `RedisError`.
    pub fn verify_refresh_token<T: TokenRedisRepository>(&self, repo: &T, token: &str, now: u64) -> (r:
        Result<String, ServiceError>)
        requires
            now + ACCESS_TOKEN_EXPIRY <= u64::MAX,
        ensures
            r == Err::<String, ServiceError>(ServiceError::RedisError) || self.refresh_answer(
                token@,
                Ok(live(repo.entries(), token@, now as int)),
                now,
                r,
            ),
            repo.reachable() ==> self.refresh_answer(
                token@,
                Ok(live(repo.entries(), token@, now as int)),
                now,
                r,
            ),
    {
        let lookup = repo.is_refresh_token_valid(token, now);
        self.refresh_after_lookup(token, lookup, now)
    }
}

} // verus!
