//! Registration, login and logout, and the account lookup behind `/me`.

use vstd::prelude::*;
use crate::accounts::{default_role, has_id, AccountRepository};
use crate::error::{DbError, RedisError, ServiceError};
use crate::jwt::{minted, JwtUtils, ACCESS_TOKEN_EXPIRY, REFRESH_TOKEN_EXPIRY};
use crate::ledger::{live, LedgerRecord, TokenRedisRepository};
use crate::model::{Account, AccountView, NewAccount, Token};
use crate::password::{
    argon2_accepts, hash_password, utf8_len, verify_password, MAX_PASSWORD_BYTES,
};
use crate::text::{i32_text_value, parse_i32, signed_decimal, signed_decimal_string};

verus! {

/// `password` matches the digest stored for `account`.
pub open spec fn password_ok(account: AccountView, password: Seq<char>) -> bool {
    match account.password {
        Some(d) => argon2_accepts(password, d),
        None => false,
    }
}

/// The subject that tokens for `account` carry: its id in decimal.
pub open spec fn subject_of(account: AccountView) -> Seq<char> {
    signed_decimal(account.id as int)
}

/// `token` holds the access and refresh tokens minted at `now` for `account`.
pub open spec fn issued_for(
    token: Token,
    account: AccountView,
    access_secret: Seq<char>,
    refresh_secret: Seq<char>,
    now: u64,
) -> bool {
    &&& minted(
        token.access_token@,
        subject_of(account),
        account.role,
        (now + ACCESS_TOKEN_EXPIRY) as u64,
        access_secret,
    )
    &&& minted(
        token.refresh_token@,
        subject_of(account),
        account.role,
        (now + REFRESH_TOKEN_EXPIRY) as u64,
        refresh_secret,
    )
}

/// How registration goes on once the store has answered whether the
/// username exists: on (`Ok`) when it does not, `Conflict` when it does,
/// `DatabaseError` when the store failed.
pub fn after_exists_check(answer: Result<(), DbError>) -> (r: Result<(), ServiceError>)
    ensures
        r == match answer {
            Ok(()) => Err(ServiceError::Conflict),
            Err(DbError::NotFound) => Ok(()),
            Err(_) => Err(ServiceError::DatabaseError),
        },
{
    match answer {
        Ok(()) => Err(ServiceError::Conflict),
        Err(DbError::NotFound) => Ok(()),
        Err(_) => Err(ServiceError::DatabaseError),
    }
}

/// The rows a registration reports once the store has answered the insert;
/// a failed insert is `DatabaseError`.
pub fn after_insert(answer: Result<u64, DbError>) -> (r: Result<u64, ServiceError>)
    ensures
        r == match answer {
            Ok(n) => Ok(n),
            Err(_) => Err(ServiceError::DatabaseError),
        },
{
    match answer {
        Ok(n) => Ok(n),
        Err(_) => Err(ServiceError::DatabaseError),
    }
}

/// The account a login goes on with once the store has answered the lookup
/// by username: `NotFound` for an unknown name, `DatabaseError` when the
/// store failed.
pub fn after_account_lookup(answer: Result<Account, DbError>) -> (r: Result<Account, ServiceError>)
    ensures
        r == match answer {
            Ok(a) => Ok(a),
            Err(DbError::NotFound) => Err(ServiceError::NotFound),
            Err(_) => Err(ServiceError::DatabaseError),
        },
{
    match answer {
        Ok(a) => Ok(a),
        Err(DbError::NotFound) => Err(ServiceError::NotFound),
        Err(_) => Err(ServiceError::DatabaseError),
    }
}

/// The outcome of a ledger write (storing or deleting an entry): a ledger
/// failure is `RedisError`, never taken for success.
pub fn after_ledger_write(answer: Result<(), RedisError>) -> (r: Result<(), ServiceError>)
    ensures
        r == match answer {
            Ok(()) => Ok(()),
            Err(_) => Err(ServiceError::RedisError),
        },
{
    match answer {
        Ok(()) => Ok(()),
        Err(_) => Err(ServiceError::RedisError),
    }
}

/// The ledger entry that a login records for its refresh token.
pub struct LedgerWrite {
    /// The account's id in decimal, as the entry's user id.
    pub user_id: String,
    /// The entry's lifetime in seconds.
    pub ttl: i64,
}

/// The ledger entry a login for `account` records: its id in decimal, for
/// the lifetime of a refresh token.
pub fn refresh_entry_for(account: &Account) -> (r: LedgerWrite)
    ensures
        r.user_id@ == subject_of(account@),
        r.ttl == REFRESH_TOKEN_EXPIRY,
{
    LedgerWrite {
        user_id: signed_decimal_string(account.id as i64),
        ttl: JwtUtils::get_refresh_exp(),
    }
}

/// Account registration and session issuance.
pub struct AuthService {
    pub access_secret: String,
    pub refresh_secret: String,
}

impl AuthService {
    /// A service that signs access tokens with `access_secret` and refresh
    /// tokens with `refresh_secret`.
    pub fn new(access_secret: String, refresh_secret: String) -> (r: Self)
        ensures
            r.access_secret@ == access_secret@,
            r.refresh_secret@ == refresh_secret@,
    {
        AuthService { access_secret, refresh_secret }
    }

    /// Registers `login_info.username` with a digest of its password; one
    /// row on success. A taken username is `Conflict`, a store failure
    /// `DatabaseError`, a password too long to hash `InternalError`.
    pub fn add_account<R: AccountRepository>(&self, repo: &mut R, login_info: NewAccount) -> (r:
        Result<u64, ServiceError>)
        ensures
            r matches Ok(n) ==> n == 1 && !old(repo).accounts().contains_key(login_info.username@)
                && exists|id: i32, d: Seq<char>|
                argon2_accepts(login_info.password@, d)
                    && final(repo).accounts() == old(repo).accounts().insert(
                    login_info.username@,
                    AccountView {
                        id,
                        username: login_info.username@,
                        password: Some(d),
                        role: default_role(),
                    },
                ),
            r is Err ==> final(repo).accounts() == old(repo).accounts(),
            final(repo).reachable() == old(repo).reachable(),
            old(repo).reachable() && old(repo).accounts().contains_key(login_info.username@) ==> r
                == Err::<u64, ServiceError>(ServiceError::Conflict),
            r == Err::<u64, ServiceError>(ServiceError::Conflict)
                ==> old(repo).accounts().contains_key(login_info.username@),
            old(repo).reachable() && old(repo).has_room() && !old(repo).accounts().contains_key(
                login_info.username@,
            ) ==> r is Ok || r == Err::<u64, ServiceError>(ServiceError::InternalError),
            old(repo).reachable() && old(repo).has_room() && !old(repo).accounts().contains_key(
                login_info.username@,
            ) && utf8_len(login_info.password@) <= MAX_PASSWORD_BYTES ==> r == Ok::<
                u64,
                ServiceError,
            >(1),
            r matches Err(e) ==> e == ServiceError::Conflict || e == ServiceError::DatabaseError || e
                == ServiceError::InternalError,
    {
        if let Err(e) = after_exists_check(repo.is_account_exist(login_info.username.as_str())) {
            return Err(e);
        }
        let digest = match hash_password(login_info.password.as_str()) {
            Ok(d) => d,
            Err(_) => {
                return Err(ServiceError::InternalError);
            },
        };
        let ghost d = digest@;
        let ghost u = login_info.username@;
        let inserted = repo.insert_account(login_info.username, digest);
        match after_insert(inserted) {
            Ok(n) => {
                proof {
                    let id = choose|id: i32|
                        final(repo).accounts() == old(repo).accounts().insert(
                            u,
                            AccountView {
                                id,
                                username: u,
                                password: Some(d),
                                role: default_role(),
                            },
                        );
                    assert(argon2_accepts(login_info.password@, d));
                }
                Ok(n)
            },
            Err(e) => Err(e),
        }
    }

    /// The access and refresh tokens for `account` at `now` when `password`
    /// matches its stored digest; `UnAuthorizedError` when it does not or
    /// there is none.
    pub fn issue_tokens(&self, account: &Account, password: &str, now: u64) -> (r: Result<
        Token,
        ServiceError,
    >)
        requires
            now + REFRESH_TOKEN_EXPIRY <= u64::MAX,
        ensures
            !password_ok(account@, password@) ==> r == Err::<Token, ServiceError>(
                ServiceError::UnAuthorizedError,
            ),
            password_ok(account@, password@) ==> (r matches Ok(t) && issued_for(
                t,
                account@,
                self.access_secret@,
                self.refresh_secret@,
                now,
            )),
    {
        let digest = match &account.password {
            Some(d) => d,
            None => {
                return Err(ServiceError::UnAuthorizedError);
            },
        };
        if verify_password(password, digest.as_str()).is_err() {
            return Err(ServiceError::UnAuthorizedError);
        }
        let subject = signed_decimal_string(account.id as i64);
        let access_token = match JwtUtils::generate_access_token(
            subject.as_str(),
            account.role.as_str(),
            self.access_secret.as_str(),
            now,
        ) {
            Ok(t) => t,
            Err(_) => {
                return Err(ServiceError::JwtError);
            },
        };
        let refresh_token = match JwtUtils::generate_refresh_token(
            subject.as_str(),
            account.role.as_str(),
            self.refresh_secret.as_str(),
            now,
        ) {
            Ok(t) => t,
            Err(_) => {
                return Err(ServiceError::JwtError);
            },
        };
        Ok(Token { access_token, refresh_token })
    }

    /// Logs `login_info.username` in at `now`: checks the password, mints
    /// both tokens and records the refresh token in `ledger` for
    /// `REFRESH_TOKEN_EXPIRY` seconds. An unknown username is `NotFound`, a
    /// wrong password `UnAuthorizedError`; store failures are
    /// `DatabaseError` and `RedisError`.
    pub fn verify_account<R: AccountRepository, T: TokenRedisRepository>(
        &self,
        accounts: &R,
        ledger: &mut T,
        login_info: NewAccount,
        now: u64,
    ) -> (r: Result<Token, ServiceError>)
        requires
            now + REFRESH_TOKEN_EXPIRY <= u64::MAX,
        ensures
            r matches Ok(t) ==> {
                let a = accounts.accounts()[login_info.username@];
                &&& accounts.accounts().contains_key(login_info.username@)
                &&& password_ok(a, login_info.password@)
                &&& issued_for(t, a, self.access_secret@, self.refresh_secret@, now)
                &&& final(ledger).entries() == old(ledger).entries().insert(
                    t.refresh_token@,
                    LedgerRecord {
                        user_id: subject_of(a),
                        expires_at: now + REFRESH_TOKEN_EXPIRY,
                    },
                )
                &&& live(final(ledger).entries(), t.refresh_token@, now as int)
            },
            r is Err ==> final(ledger).entries() == old(ledger).entries(),
            final(ledger).reachable() == old(ledger).reachable(),
            accounts.reachable() && !accounts.accounts().contains_key(login_info.username@) ==> r
                == Err::<Token, ServiceError>(ServiceError::NotFound),
            accounts.reachable() && accounts.accounts().contains_key(login_info.username@)
                && !password_ok(accounts.accounts()[login_info.username@], login_info.password@)
                ==> r == Err::<Token, ServiceError>(ServiceError::UnAuthorizedError),
            accounts.reachable() && old(ledger).reachable() && accounts.accounts().contains_key(
                login_info.username@,
            ) && password_ok(accounts.accounts()[login_info.username@], login_info.password@) ==> r
                is Ok,
            r matches Err(e) ==> e == ServiceError::NotFound || e == ServiceError::UnAuthorizedError
                || e == ServiceError::DatabaseError || e == ServiceError::RedisError,
    {
        let account = match after_account_lookup(
            accounts.get_account_by_username(login_info.username.as_str()),
        ) {
            Ok(a) => a,
            Err(e) => {
                return Err(e);
            },
        };
        let token = match self.issue_tokens(&account, login_info.password.as_str(), now) {
            Ok(t) => t,
            Err(e) => {
                return Err(e);
            },
        };
        let entry = refresh_entry_for(&account);
        let stored = ledger.store_refresh_token(
            entry.user_id.as_str(),
            token.refresh_token.as_str(),
            entry.ttl,
            now,
        );
        match after_ledger_write(stored) {
            Ok(()) => Ok(token),
            Err(e) => Err(e),
        }
    }

    /// Revokes `refresh_token` by deleting its ledger entry; deleting an
    /// absent entry succeeds. A ledger failure is `RedisError`.
    pub fn logout<T: TokenRedisRepository>(&self, ledger: &mut T, refresh_token: &str) -> (r: Result<
        (),
        ServiceError,
    >)
        ensures
            r is Ok ==> final(ledger).entries() == old(ledger).entries().remove(refresh_token@),
            r is Err ==> r == Err::<(), ServiceError>(ServiceError::RedisError),
            r is Err ==> final(ledger).entries() == old(ledger).entries(),
            old(ledger).reachable() ==> r is Ok,
            final(ledger).reachable() == old(ledger).reachable(),
    {
        after_ledger_write(ledger.delete_refresh_token(refresh_token))
    }
}

/// Registers `new_account` in `repo`: one row on success, `Existed` for a
/// taken username, `InternalError` when hashing fails or the store cannot be
/// asked, `InsertError` when the insert fails.
pub fn add_account<R: AccountRepository>(repo: &mut R, new_account: NewAccount) -> (r: Result<
    u64,
    DbError,
>)
    ensures
        r matches Ok(n) ==> n == 1 && !old(repo).accounts().contains_key(new_account.username@)
            && exists|id: i32, d: Seq<char>|
            argon2_accepts(new_account.password@, d)
                && final(repo).accounts() == old(repo).accounts().insert(
                new_account.username@,
                AccountView {
                    id,
                    username: new_account.username@,
                    password: Some(d),
                    role: default_role(),
                },
            ),
        r is Err ==> final(repo).accounts() == old(repo).accounts(),
        final(repo).reachable() == old(repo).reachable(),
        old(repo).reachable() && old(repo).accounts().contains_key(new_account.username@) ==> r
            == Err::<u64, DbError>(DbError::Existed),
        r == Err::<u64, DbError>(DbError::Existed) ==> old(repo).accounts().contains_key(
            new_account.username@,
        ),
        old(repo).reachable() && old(repo).has_room() && !old(repo).accounts().contains_key(
            new_account.username@,
        ) ==> r is Ok || r == Err::<u64, DbError>(DbError::InternalError),
        old(repo).reachable() && old(repo).has_room() && !old(repo).accounts().contains_key(
            new_account.username@,
        ) && utf8_len(new_account.password@) <= MAX_PASSWORD_BYTES ==> r == Ok::<u64, DbError>(1),
{
    match repo.is_account_exist(new_account.username.as_str()) {
        Ok(()) => {
            return Err(DbError::Existed);
        },
        Err(DbError::NotFound) => {},
        Err(e) => {
            return Err(e);
        },
    }
    let digest = match hash_password(new_account.password.as_str()) {
        Ok(d) => d,
        Err(_) => {
            return Err(DbError::InternalError);
        },
    };
    let ghost d = digest@;
    let ghost u = new_account.username@;
    let inserted = repo.insert_account(new_account.username, digest);
    proof {
        if inserted is Ok {
            let id = choose|id: i32|
                final(repo).accounts() == old(repo).accounts().insert(
                    u,
                    AccountView { id, username: u, password: Some(d), role: default_role() },
                );
        }
    }
    match inserted {
        Ok(n) => Ok(n),
        Err(_) => Err(DbError::InsertError),
    }
}

/// Looks accounts up by id.
pub struct AccountService;

impl AccountService {
    pub fn new() -> (r: Self) {
        AccountService
    }

    /// The account whose id the text `id` writes in decimal.
    /// `InvalidIdFormat` when it writes no `i32`, `NotFound` when no account
    /// has that id, `DatabaseError` when the store fails (an unreachable
    /// store always does).
    pub fn get_account_info<R: AccountRepository>(&self, repo: &R, id: &str) -> (r: Result<
        Account,
        ServiceError,
    >)
        ensures
            i32_text_value(id@) is None ==> r == Err::<Account, ServiceError>(
                ServiceError::InvalidIdFormat,
            ),
            i32_text_value(id@) matches Some(n) ==> {
                &&& r matches Ok(a) ==> a.id == n && repo.accounts().contains_key(a@.username)
                    && repo.accounts()[a@.username] == a@
                &&& r matches Err(e) ==> (e == ServiceError::NotFound && !has_id(
                    repo.accounts(),
                    n,
                )) || e == ServiceError::DatabaseError
                &&& repo.reachable() ==> (r is Ok <==> has_id(repo.accounts(), n))
                &&& repo.reachable() && !has_id(repo.accounts(), n) ==> r == Err::<
                    Account,
                    ServiceError,
                >(ServiceError::NotFound)
                &&& !repo.reachable() ==> r == Err::<Account, ServiceError>(
                    ServiceError::DatabaseError,
                )
            },
    {
        let n = match parse_i32(id) {
            Some(n) => n,
            None => {
                return Err(ServiceError::InvalidIdFormat);
            },
        };
        after_account_lookup(repo.get_account_by_id(n))
    }
}

} // verus!
