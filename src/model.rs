//! Accounts and the token pair handed out at login.

use vstd::prelude::*;

verus! {

/// A stored account.
#[derive(Debug, Clone)]
pub struct Account {
    pub id: i32,
    pub username: String,
    pub password: Option<String>,
    pub role: String,
}

/// An account as a mathematical value.
pub struct AccountView {
    pub id: i32,
    pub username: Seq<char>,
    pub password: Option<Seq<char>>,
    pub role: Seq<char>,
}

impl View for Account {
    type V = AccountView;

    open spec fn view(&self) -> AccountView {
        AccountView {
            id: self.id,
            username: self.username@,
            password: match self.password {
                Some(p) => Some(p@),
                None => None,
            },
            role: self.role@,
        }
    }
}

/// Username and password, as given at registration or login.
#[derive(Debug, Clone)]
pub struct NewAccount {
    pub username: String,
    pub password: String,
}

/// The access and refresh tokens issued at login.
#[derive(Debug, Clone)]
pub struct Token {
    pub access_token: String,
    pub refresh_token: String,
}

/// A refresh token presented for logout.
#[derive(Debug, Clone)]
pub struct RefreshToken {
    pub refresh_token: String,
}

} // verus!
