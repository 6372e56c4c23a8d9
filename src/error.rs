//! Error kinds of the library and the HTTP status each one maps to.

use vstd::prelude::*;

verus! {

/// Failure of the revocation ledger's backing store.
#[derive(Debug, Clone, Copy, PartialEq, Eq, Structural)]
pub enum RedisError {
    /// No connection to the store could be had.
    PoolError,
    /// The store rejected or failed a command.
    RedisError,
}

/// Failure of the credential store.
#[derive(Debug, Clone, Copy, PartialEq, Eq, Structural)]
pub enum DbError {
    InternalError,
    InsertError,
    Existed,
    NotFound,
}

/// Errors surfaced by the token, account and authentication services.
#[derive(Debug, Clone, Copy, PartialEq, Eq, Structural)]
pub enum ServiceError {
    /// An account id that is not a decimal `i32`.
    InvalidIdFormat,
    /// No account matches.
    NotFound,
    /// The credential store failed.
    DatabaseError,
    /// A token could not be signed.
    JwtError,
    /// The revocation ledger could not be reached.
    RedisError,
    /// Missing, malformed, forged, expired or revoked credentials.
    UnAuthorizedError,
    /// The identity's role may not reach the path.
    Forbidden,
    /// The username is already taken.
    Conflict,
    /// A server-side fault, such as a request that skipped authentication.
    InternalError,
}

impl DbError {
    pub open spec fn status_spec(self) -> u16 {
        match self {
            DbError::Existed => 409,
            DbError::NotFound => 404,
            _ => 500,
        }
    }

    /// The HTTP status that answers this error.
    pub fn status_code(&self) -> (r: u16)
        ensures
            r == self.status_spec(),
    {
        match self {
            DbError::Existed => 409,
            DbError::NotFound => 404,
            _ => 500,
        }
    }
}

impl ServiceError {
    pub open spec fn status_spec(self) -> u16 {
        match self {
            ServiceError::UnAuthorizedError => 401,
            ServiceError::Forbidden => 403,
            ServiceError::NotFound => 404,
            ServiceError::Conflict => 409,
            _ => 500,
        }
    }

    /// The HTTP status that answers this error.
    pub fn status_code(&self) -> (r: u16)
        ensures
            r == self.status_spec(),
    {
        match self {
            ServiceError::UnAuthorizedError => 401,
            ServiceError::Forbidden => 403,
            ServiceError::NotFound => 404,
            ServiceError::Conflict => 409,
            _ => 500,
        }
    }
}

} // verus!
