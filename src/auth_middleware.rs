//! The authentication stage of the request pipeline.
//!
//! On the refresh endpoint the stage reads the `refresh_token` cookie and
//! trades it for a new access token; everywhere else it reads the bearer
//! token of the `Authorization` header and attaches its claims. Whatever it
//! verified is attached to the request for the stages after it.

use vstd::prelude::*;
use crate::error::{RedisError, ServiceError};
use crate::jwt::{opt_view, Claims, ClaimsView, ACCESS_TOKEN_EXPIRY};
use crate::ledger::{live, TokenRedisRepository};
use crate::text::{contains, contains_seq, strip_leading, trim_leading};
use crate::token_service::{unexpired_claims, TokenService};

verus! {

/// What a successful authentication attaches to the request.
#[derive(Debug)]
pub enum Attached {
    /// A new access token, on the refresh endpoint.
    AccessToken(String),
    /// The claims of the presented access token, everywhere else.
    Identity(Claims),
}

/// Whether a request for `path` goes to the refresh endpoint.
pub open spec fn is_refresh_path(path: Seq<char>) -> bool {
    contains_seq(path, "/api/auth/refresh"@)
}

/// The token carried by an `Authorization` header value.
pub open spec fn bearer_token(header: Seq<char>) -> Seq<char> {
    strip_leading(header, "Bearer "@)
}

/// What the stage answers for a request off the refresh endpoint that
/// carries the `Authorization` value `header`.
pub open spec fn access_outcome(
    access_secret: Seq<char>,
    header: Option<Seq<char>>,
    now: int,
) -> Result<ClaimsView, ServiceError> {
    match header {
        None => Err(ServiceError::UnAuthorizedError),
        Some(h) => unexpired_claims(bearer_token(h), access_secret, now),
    }
}

/// The access token a refresh attached, as a refresh answer.
pub open spec fn issued_token(r: Result<Attached, ServiceError>) -> Result<String, ServiceError> {
    match r {
        Ok(Attached::AccessToken(t)) => Ok(t),
        Ok(Attached::Identity(_)) => Err(ServiceError::InternalError),
        Err(e) => Err(e),
    }
}

/// The credential a request presents to the stage.
#[derive(Debug)]
pub enum Presented {
    /// The `refresh_token` cookie, on the refresh endpoint.
    RefreshToken(String),
    /// The `Authorization` value, if any, everywhere else.
    Authorization(Option<String>),
}

/// Picks the credential that a request for `path` must present: the
/// `refresh_token` cookie on the refresh endpoint (`UnAuthorizedError` when
/// it is missing), the `Authorization` value elsewhere.
pub fn presented_credential(
    path: &str,
    refresh_cookie: Option<String>,
    authorization: Option<String>,
) -> (r: Result<Presented, ServiceError>)
    ensures
        is_refresh_path(path@) && refresh_cookie is None ==> r == Err::<Presented, ServiceError>(
            ServiceError::UnAuthorizedError,
        ),
        is_refresh_path(path@) && refresh_cookie is Some ==> (r matches Ok(
            Presented::RefreshToken(t),
        ) && t@ == refresh_cookie->0@),
        !is_refresh_path(path@) ==> (r matches Ok(Presented::Authorization(h)) && opt_view(h)
            == opt_view(authorization)),
{
    if contains(path, "/api/auth/refresh") {
        match refresh_cookie {
            None => Err(ServiceError::UnAuthorizedError),
            Some(token) => Ok(Presented::RefreshToken(token)),
        }
    } else {
        Ok(Presented::Authorization(authorization))
    }
}

/// The authentication stage, holding the token secrets.
pub struct AuthMiddleware {
    pub token_service: TokenService,
}

impl AuthMiddleware {
    /// A stage that checks tokens with the two secrets.
    pub fn new(access_secret: String, refresh_secret: String) -> (r: Self)
        ensures
            r.token_service.access_secret@ == access_secret@,
            r.token_service.refresh_secret@ == refresh_secret@,
    {
        AuthMiddleware { token_service: TokenService::new(access_secret, refresh_secret) }
    }

    /// The per-request service of this stage.
    pub fn new_transform(&self) -> (r: AuthMiddlewareService)
        ensures
            r.token_service.access_secret@ == self.token_service.access_secret@,
            r.token_service.refresh_secret@ == self.token_service.refresh_secret@,
    {
        AuthMiddlewareService {
            token_service: TokenService::new(
                self.token_service.access_secret.clone(),
                self.token_service.refresh_secret.clone(),
            ),
        }
    }
}

/// The authentication check applied to each request.
pub struct AuthMiddlewareService {
    pub token_service: TokenService,
}

impl AuthMiddlewareService {
    /// The stage off the refresh endpoint: the claims of the bearer token in
    /// `authorization`, or `UnAuthorizedError` when the header is absent or
    /// its token does not verify.
    pub fn authenticate_access(&self, authorization: Option<String>, now: u64) -> (r: Result<
        Attached,
        ServiceError,
    >)
        ensures
            match access_outcome(
                self.token_service.access_secret@,
                opt_view(authorization),
                now as int,
            ) {
                Ok(c) => r matches Ok(Attached::Identity(claims)) && claims@ == c,
                Err(e) => r == Err::<Attached, ServiceError>(e),
            },
    {
        match authorization {
            None => Err(ServiceError::UnAuthorizedError),
            Some(header) => {
                let token = trim_leading(header.as_str(), "Bearer ");
                match self.token_service.verify_access_token(token.as_str(), now) {
                    Ok(claims) => Ok(Attached::Identity(claims)),
                    Err(e) => Err(e),
                }
            },
        }
    }

    /// The stage on the refresh endpoint, once the ledger has answered
    /// `lookup` for the cookie's token: the new access token, or the
    /// refresh's error (`RedisError` when the ledger could not answer).
    pub fn finish_refresh(&self, refresh_token: &str, lookup: Result<bool, RedisError>, now: u64) -> (r:
        Result<Attached, ServiceError>)
        requires
            now + ACCESS_TOKEN_EXPIRY <= u64::MAX,
        ensures
            self.token_service.refresh_answer(refresh_token@, lookup, now, issued_token(r)),
            r matches Ok(a) ==> a is AccessToken,
    {
        match self.token_service.refresh_after_lookup(refresh_token, lookup, now) {
            Ok(t) => Ok(Attached::AccessToken(t)),
            Err(e) => Err(e),
        }
    }

    /// Authenticates a request for `path` carrying the `refresh_token`
    /// cookie `refresh_cookie` and the `Authorization` value
    /// `authorization`, against the ledger `repo` at `now`. A missing
    /// credential is `UnAuthorizedError`.
    pub fn call<T: TokenRedisRepository>(
        &self,
        repo: &T,
        path: &str,
        refresh_cookie: Option<String>,
        authorization: Option<String>,
        now: u64,
    ) -> (r: Result<Attached, ServiceError>)
        requires
            now + ACCESS_TOKEN_EXPIRY <= u64::MAX,
        ensures
            !is_refresh_path(path@) ==> match access_outcome(
                self.token_service.access_secret@,
                opt_view(authorization),
                now as int,
            ) {
                Ok(c) => r matches Ok(Attached::Identity(claims)) && claims@ == c,
                Err(e) => r == Err::<Attached, ServiceError>(e),
            },
            is_refresh_path(path@) && refresh_cookie is None ==> r == Err::<
                Attached,
                ServiceError,
            >(ServiceError::UnAuthorizedError),
            is_refresh_path(path@) && refresh_cookie is Some ==> {
                &&& r matches Ok(a) ==> a is AccessToken
                &&& r == Err::<Attached, ServiceError>(ServiceError::RedisError)
                    || self.token_service.refresh_answer(
                    refresh_cookie->0@,
                    Ok(live(repo.entries(), refresh_cookie->0@, now as int)),
                    now,
                    issued_token(r),
                )
                &&& repo.reachable() ==> self.token_service.refresh_answer(
                    refresh_cookie->0@,
                    Ok(live(repo.entries(), refresh_cookie->0@, now as int)),
                    now,
                    issued_token(r),
                )
            },
    {
        match presented_credential(path, refresh_cookie, authorization) {
            Err(e) => Err(e),
            Ok(Presented::RefreshToken(token)) => match self.token_service.verify_refresh_token(
                repo,
                token.as_str(),
                now,
            ) {
                Ok(t) => Ok(Attached::AccessToken(t)),
                Err(e) => Err(e),
            },
            Ok(Presented::Authorization(header)) => self.authenticate_access(header, now),
        }
    }
}

} // verus!
