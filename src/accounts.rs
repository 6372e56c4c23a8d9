//! The credential store: accounts keyed by their unique username.

use vstd::prelude::*;
use crate::error::DbError;
use crate::model::{Account, AccountView};
use crate::text::str_eq;

verus! {

/// The role every new account gets.
pub open spec fn default_role() -> Seq<char> {
    "user"@
}

/// Some account in `accounts` has the id `id`.
pub open spec fn has_id(accounts: Map<Seq<char>, AccountView>, id: i32) -> bool {
    exists|u: Seq<char>| accounts.contains_key(u) && accounts[u].id == id
}

/// Storage for accounts.
pub trait AccountRepository {
    /// The accounts, by username.
    spec fn accounts(&self) -> Map<Seq<char>, AccountView>;

    /// Whether the backing store answers; one that does not fails every
    /// call with `InternalError`.
    spec fn reachable(&self) -> bool;

    /// Whether the store can take one more account.
    spec fn has_room(&self) -> bool;

    /// Adds an account with the role `user`; one row on success. A taken
    /// username is refused.
    fn insert_account(&mut self, username: String, password: String) -> (r: Result<u64, DbError>)
        ensures
            r matches Ok(n) ==> n == 1 && !old(self).accounts().contains_key(username@)
                && exists|id: i32|
                final(self).accounts() == old(self).accounts().insert(
                    username@,
                    AccountView {
                        id,
                        username: username@,
                        password: Some(password@),
                        role: default_role(),
                    },
                ),
            r is Err ==> final(self).accounts() == old(self).accounts(),
            old(self).reachable() && old(self).has_room() && !old(self).accounts().contains_key(
                username@,
            ) ==> r is Ok,
            !old(self).reachable() ==> r == Err::<u64, DbError>(DbError::InternalError),
            final(self).reachable() == old(self).reachable(),
    ;

    /// The account named `username`; `NotFound` when there is none.
    fn get_account_by_username(&self, username: &str) -> (r: Result<Account, DbError>)
        ensures
            r matches Ok(a) ==> self.accounts().contains_key(username@) && a@ == self.accounts()[username@],
            r matches Err(e) ==> (e == DbError::NotFound && !self.accounts().contains_key(username@))
                || e == DbError::InternalError,
            self.reachable() ==> !(r matches Err(DbError::InternalError)),
            !self.reachable() ==> r == Err::<Account, DbError>(DbError::InternalError),
    ;

    /// The account with id `id`; `NotFound` when there is none.
    fn get_account_by_id(&self, id: i32) -> (r: Result<Account, DbError>)
        ensures
            r matches Ok(a) ==> a.id == id && self.accounts().contains_key(a@.username)
                && self.accounts()[a@.username] == a@,
            r matches Err(e) ==> (e == DbError::NotFound && !has_id(self.accounts(), id)) || e
                == DbError::InternalError,
            self.reachable() ==> !(r matches Err(DbError::InternalError)),
            !self.reachable() ==> r == Err::<Account, DbError>(DbError::InternalError),
    ;

    /// `Ok` when an account named `username` exists, `NotFound` when none does.
    fn is_account_exist(&self, username: &str) -> (r: Result<(), DbError>)
        ensures
            r is Ok ==> self.accounts().contains_key(username@),
            r matches Err(e) ==> (e == DbError::NotFound && !self.accounts().contains_key(username@))
                || e == DbError::InternalError,
            self.reachable() ==> !(r matches Err(DbError::InternalError)),
            !self.reachable() ==> r == Err::<(), DbError>(DbError::InternalError),
    ;
}

/// Accounts held in memory, numbered from 1 in order of insertion, with a
/// switch that makes the store act as unreachable.
pub struct MemoryAccountStore {
    rows: Vec<Account>,
    online: bool,
}

/// No two rows share a username.
pub open spec fn unique_usernames(rows: Seq<Account>) -> bool {
    forall|i: int, j: int|
        0 <= i < rows.len() && 0 <= j < rows.len() && #[trigger] rows[i].username@
            == #[trigger] rows[j].username@ ==> i == j
}

/// The index of the row named `username`, if there is one.
pub open spec fn row_of(rows: Seq<Account>, username: Seq<char>) -> Option<int> {
    if exists|i: int| 0 <= i < rows.len() && rows[i].username@ == username {
        Some(choose|i: int| 0 <= i < rows.len() && rows[i].username@ == username)
    } else {
        None
    }
}

/// The accounts that `rows` hold, by username.
pub open spec fn accounts_of(rows: Seq<Account>) -> Map<Seq<char>, AccountView> {
    Map::new(|u: Seq<char>| row_of(rows, u) is Some, |u: Seq<char>| rows[row_of(rows, u)->0]@)
}

proof fn lemma_row_of_unique(rows: Seq<Account>, i: int)
    requires
        unique_usernames(rows),
        0 <= i < rows.len(),
    ensures
        row_of(rows, rows[i].username@) == Some(i),
        accounts_of(rows).contains_key(rows[i].username@),
        accounts_of(rows)[rows[i].username@] == rows[i]@,
{
    let u = rows[i].username@;
    assert(0 <= i < rows.len() && rows[i].username@ == u);
    let j = choose|j: int| 0 <= j < rows.len() && rows[j].username@ == u;
    assert(rows[j].username@ == rows[i].username@);
}

impl MemoryAccountStore {
    #[verifier::type_invariant]
    spec fn wf(&self) -> bool {
        unique_usernames(self.rows@)
    }

    /// An empty store that answers.
    pub fn new() -> (r: Self)
        ensures
            r.accounts() == Map::<Seq<char>, AccountView>::empty(),
            r.reachable(),
            r.has_room(),
    {
        let r = MemoryAccountStore { rows: Vec::new(), online: true };
        assert(r.accounts() =~= Map::<Seq<char>, AccountView>::empty());
        r
    }

    /// Makes the store answer, or fail every call, from now on.
    pub fn set_reachable(&mut self, online: bool)
        ensures
            final(self).reachable() == online,
            final(self).accounts() == old(self).accounts(),
            final(self).has_room() == old(self).has_room(),
    {
        proof {
            use_type_invariant(&*self);
        }
        self.online = online;
    }

    fn find(&self, username: &str) -> (r: Option<usize>)
        ensures
            match r {
                Some(i) => i < self.rows@.len() && self.rows@[i as int].username@ == username@,
                None => forall|i: int|
                    0 <= i < self.rows@.len() ==> self.rows@[i].username@ != username@,
            },
    {
        let mut i: usize = 0;
        while i < self.rows.len()
            invariant
                i <= self.rows@.len(),
                forall|j: int| 0 <= j < i ==> self.rows@[j].username@ != username@,
            decreases self.rows@.len() - i,
        {
            if str_eq(self.rows[i].username.as_str(), username) {
                return Some(i);
            }
            i += 1;
        }
        None
    }

    fn copy_row(&self, i: usize) -> (r: Account)
        requires
            i < self.rows@.len(),
        ensures
            r@ == self.rows@[i as int]@,
    {
        let row = &self.rows[i];
        Account {
            id: row.id,
            username: row.username.clone(),
            password: match &row.password {
                Some(p) => Some(p.clone()),
                None => None,
            },
            role: row.role.clone(),
        }
    }
}

impl AccountRepository for MemoryAccountStore {
    closed spec fn accounts(&self) -> Map<Seq<char>, AccountView> {
        accounts_of(self.rows@)
    }

    closed spec fn reachable(&self) -> bool {
        self.online
    }

    closed spec fn has_room(&self) -> bool {
        self.rows@.len() + 1 < i32::MAX
    }

    fn insert_account(&mut self, username: String, password: String) -> (r: Result<u64, DbError>) {
        proof {
            use_type_invariant(&*self);
        }
        if !self.online {
            return Err(DbError::InternalError);
        }
        if self.rows.len() >= (i32::MAX - 1) as usize {
            return Err(DbError::InsertError);
        }
        match self.find(username.as_str()) {
            Some(i) => {
                proof {
                    lemma_row_of_unique(self.rows@, i as int);
                }
                return Err(DbError::Existed);
            },
            None => {},
        }
        assert(!self.accounts().contains_key(username@));
        let ghost before = self.rows@;
        let ghost entry = AccountView {
            id: (before.len() + 1) as i32,
            username: username@,
            password: Some(password@),
            role: default_role(),
        };
        let id = (self.rows.len() + 1) as i32;
        let role = String::from_str("user");
        let mut rows: Vec<Account> = Vec::new();
        std::mem::swap(&mut rows, &mut self.rows);
        rows.push(Account { id, username, password: Some(password), role });
        proof {
            let after = rows@;
            let n = before.len() as int;
            assert(after[n]@ == entry);
            assert(unique_usernames(after)) by {
                assert forall|i: int, j: int|
                    0 <= i < after.len() && 0 <= j < after.len() && #[trigger] after[i].username@
                        == #[trigger] after[j].username@ implies i == j by {
                    if i < n && j < n {
                        assert(before[i].username@ == before[j].username@);
                    }
                }
            }
            assert forall|u: Seq<char>| #[trigger]
                accounts_of(after).contains_key(u) == accounts_of(before).insert(
                    entry.username,
                    entry,
                ).contains_key(u) by {
                if u == entry.username {
                    lemma_row_of_unique(after, n);
                } else if accounts_of(before).contains_key(u) {
                    let k = row_of(before, u)->0;
                    assert(after[k].username@ == u);
                } else if accounts_of(after).contains_key(u) {
                    let k = row_of(after, u)->0;
                    assert(before[k].username@ == u);
                }
            }
            assert forall|u: Seq<char>| #[trigger]
                accounts_of(after).contains_key(u) implies accounts_of(after)[u]
                == accounts_of(before).insert(entry.username, entry)[u] by {
                if u == entry.username {
                    lemma_row_of_unique(after, n);
                } else {
                    let k = row_of(after, u)->0;
                    assert(k < n);
                    assert(before[k].username@ == u);
                    lemma_row_of_unique(before, k);
                    lemma_row_of_unique(after, k);
                }
            }
            assert(accounts_of(after) =~= accounts_of(before).insert(entry.username, entry));
        }
        self.rows = rows;
        Ok(1)
    }

    fn get_account_by_username(&self, username: &str) -> (r: Result<Account, DbError>) {
        proof {
            use_type_invariant(self);
        }
        if !self.online {
            return Err(DbError::InternalError);
        }
        match self.find(username) {
            Some(i) => {
                proof {
                    lemma_row_of_unique(self.rows@, i as int);
                }
                Ok(self.copy_row(i))
            },
            None => Err(DbError::NotFound),
        }
    }

    fn get_account_by_id(&self, id: i32) -> (r: Result<Account, DbError>) {
        proof {
            use_type_invariant(self);
        }
        if !self.online {
            return Err(DbError::InternalError);
        }
        let mut i: usize = 0;
        while i < self.rows.len()
            invariant
                i <= self.rows@.len(),
                self.online,
                unique_usernames(self.rows@),
                forall|j: int| 0 <= j < i ==> self.rows@[j].id != id,
            decreases self.rows@.len() - i,
        {
            if self.rows[i].id == id {
                proof {
                    lemma_row_of_unique(self.rows@, i as int);
                }
                return Ok(self.copy_row(i));
            }
            i += 1;
        }
        assert(!has_id(self.accounts(), id)) by {
            if has_id(self.accounts(), id) {
                let u = choose|u: Seq<char>|
                    self.accounts().contains_key(u) && self.accounts()[u].id == id;
                let k = row_of(self.rows@, u)->0;
                assert(self.rows@[k].id == id);
            }
        }
        Err(DbError::NotFound)
    }

    fn is_account_exist(&self, username: &str) -> (r: Result<(), DbError>) {
        proof {
            use_type_invariant(self);
        }
        if !self.online {
            return Err(DbError::InternalError);
        }
        match self.find(username) {
            Some(i) => {
                proof {
                    lemma_row_of_unique(self.rows@, i as int);
                }
                Ok(())
            },
            None => Err(DbError::NotFound),
        }
    }
}

} // verus!
