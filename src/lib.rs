//! Credential-and-session authority: token issuance and verification, a
//! revocable refresh-token ledger, password-checked login, and the
//! authentication and role checks that guard each request.

pub mod accounts;
pub mod auth_middleware;
pub mod auth_service;
pub mod clock;
pub mod error;
pub mod jwt;
pub mod laws;
pub mod ledger;
pub mod model;
pub mod password;
pub mod rbac;
pub mod text;
pub mod token_service;
