//! The revocation ledger: which refresh tokens are currently honoured.
//!
//! An entry is keyed by the token string and lives until its TTL runs out
//! or it is deleted at logout. A store that cannot be reached answers with
//! an error, never with "absent".

use vstd::prelude::*;
use crate::error::RedisError;
use crate::text::{join, signed_decimal, signed_decimal_string, str_eq};

verus! {

/// A ledger entry as a mathematical value.
pub struct LedgerRecord {
    pub user_id: Seq<char>,
    pub expires_at: int,
}

/// `token` has an entry in `entries` that has not expired at `now`.
pub open spec fn live(entries: Map<Seq<char>, LedgerRecord>, token: Seq<char>, now: int) -> bool {
    entries.contains_key(token) && now < entries[token].expires_at
}

/// Storage for refresh-token entries.
pub trait TokenRedisRepository {
    /// The entries, by token.
    spec fn entries(&self) -> Map<Seq<char>, LedgerRecord>;

    /// Whether the backing store answers; one that does not fails every
    /// call.
    spec fn reachable(&self) -> bool;

    /// Records `token` for `user_id`, to expire `ttl` seconds after `now`,
    /// replacing an entry for the same token. A TTL that is not positive is
    /// refused.
    fn store_refresh_token(&mut self, user_id: &str, token: &str, ttl: i64, now: u64) -> (r: Result<
        (),
        RedisError,
    >)
        ensures
            r is Ok ==> ttl > 0 && final(self).entries() == old(self).entries().insert(
                token@,
                LedgerRecord { user_id: user_id@, expires_at: now + ttl },
            ),
            r is Err ==> final(self).entries() == old(self).entries(),
            old(self).reachable() && ttl > 0 ==> r is Ok,
            !old(self).reachable() ==> r is Err,
            final(self).reachable() == old(self).reachable(),
    ;

    /// Whether `token` has a live entry at `now`.
    fn is_refresh_token_valid(&self, token: &str, now: u64) -> (r: Result<bool, RedisError>)
        ensures
            r matches Ok(b) ==> b == live(self.entries(), token@, now as int),
            self.reachable() ==> r is Ok,
            !self.reachable() ==> r is Err,
    ;

    /// Removes the entry for `token`, if there is one.
    fn delete_refresh_token(&mut self, token: &str) -> (r: Result<(), RedisError>)
        ensures
            r is Ok ==> final(self).entries() == old(self).entries().remove(token@),
            r is Err ==> final(self).entries() == old(self).entries(),
            old(self).reachable() ==> r is Ok,
            !old(self).reachable() ==> r is Err,
            final(self).reachable() == old(self).reachable(),
    ;
}

/// The key under which the store keeps the entry for `token`.
pub fn ledger_key(token: &str) -> (r: String)
    ensures
        r@ == "refresh_token:"@ + token@,
{
    join("refresh_token:", token)
}

/// The value the store keeps for an entry: `{"user_id": <id>, "exp": <ttl>}`.
pub fn ledger_value(user_id: &str, ttl: i64) -> (r: String)
    ensures
        r@ == "{\"user_id\": "@ + user_id@ + ", \"exp\": "@ + signed_decimal(ttl as int) + "}"@,
{
    let head = join("{\"user_id\": ", user_id);
    let with_label = join(head.as_str(), ", \"exp\": ");
    let ttl_text = signed_decimal_string(ttl);
    let with_ttl = join(with_label.as_str(), ttl_text.as_str());
    join(with_ttl.as_str(), "}")
}

/// One stored entry of the in-memory ledger.
pub struct Entry {
    token: String,
    user_id: String,
    expires_at: i128,
}

/// The record that the newest entry for `token` among `s` holds.
spec fn lookup(s: Seq<Entry>, token: Seq<char>) -> Option<LedgerRecord>
    decreases s.len(),
{
    if s.len() == 0 {
        None
    } else if s.last().token@ == token {
        Some(LedgerRecord { user_id: s.last().user_id@, expires_at: s.last().expires_at as int })
    } else {
        lookup(s.drop_last(), token)
    }
}

spec fn entries_of(s: Seq<Entry>) -> Map<Seq<char>, LedgerRecord> {
    Map::new(|k: Seq<char>| lookup(s, k) is Some, |k: Seq<char>| lookup(s, k)->0)
}

/// A ledger held in memory, with a switch that makes it act as an
/// unreachable store.
pub struct MemoryLedger {
    items: Vec<Entry>,
    online: bool,
}

impl MemoryLedger {
    /// An empty ledger that answers.
    pub fn new() -> (r: Self)
        ensures
            r.entries() == Map::<Seq<char>, LedgerRecord>::empty(),
            r.reachable(),
    {
        let r = MemoryLedger { items: Vec::new(), online: true };
        assert(r.entries() =~= Map::<Seq<char>, LedgerRecord>::empty());
        r
    }

    /// Makes the ledger answer, or fail every call, from now on; its entries
    /// stay as they are.
    pub fn set_reachable(&mut self, online: bool)
        ensures
            final(self).reachable() == online,
            final(self).entries() == old(self).entries(),
    {
        self.online = online;
    }
}

impl TokenRedisRepository for MemoryLedger {
    closed spec fn entries(&self) -> Map<Seq<char>, LedgerRecord> {
        entries_of(self.items@)
    }

    closed spec fn reachable(&self) -> bool {
        self.online
    }

    fn store_refresh_token(&mut self, user_id: &str, token: &str, ttl: i64, now: u64) -> (r: Result<
        (),
        RedisError,
    >) {
        if !self.online || ttl <= 0 {
            return Err(RedisError::RedisError);
        }
        let ghost before = self.items@;
        let entry = Entry {
            token: String::from_str(token),
            user_id: String::from_str(user_id),
            expires_at: now as i128 + ttl as i128,
        };
        self.items.push(entry);
        proof {
            let after = self.items@;
            assert(after.drop_last() =~= before);
            assert(entries_of(after) =~= entries_of(before).insert(
                token@,
                LedgerRecord { user_id: user_id@, expires_at: now + ttl },
            ));
        }
        Ok(())
    }

    fn is_refresh_token_valid(&self, token: &str, now: u64) -> (r: Result<bool, RedisError>) {
        if !self.online {
            return Err(RedisError::PoolError);
        }
        let mut i: usize = self.items.len();
        assert(self.items@.subrange(0, i as int) =~= self.items@);
        while i > 0
            invariant
                i <= self.items@.len(),
                self.online,
                lookup(self.items@.subrange(0, i as int), token@) == lookup(self.items@, token@),
            decreases i,
        {
            let ghost prefix = self.items@.subrange(0, i as int);
            let e = &self.items[i - 1];
            if str_eq(e.token.as_str(), token) {
                return Ok((now as i128) < e.expires_at);
            }
            assert(prefix.drop_last() =~= self.items@.subrange(0, i - 1));
            i -= 1;
        }
        assert(self.items@.subrange(0, 0) =~= Seq::<Entry>::empty());
        Ok(false)
    }

    fn delete_refresh_token(&mut self, token: &str) -> (r: Result<(), RedisError>) {
        if !self.online {
            return Err(RedisError::PoolError);
        }
        let ghost before = self.items@;
        let mut kept: Vec<Entry> = Vec::new();
        let mut i: usize = 0;
        while i < self.items.len()
            invariant
                self.items@ == before,
                i <= before.len(),
                forall|k: Seq<char>|
                    #![trigger lookup(kept@, k)]
                    lookup(kept@, k) == if k == token@ {
                        None
                    } else {
                        lookup(before.subrange(0, i as int), k)
                    },
            decreases before.len() - i,
        {
            let e = &self.items[i];
            let ghost kept_before = kept@;
            let ghost cur = before.subrange(0, i + 1);
            assert(cur.drop_last() =~= before.subrange(0, i as int));
            assert(cur.last() == before[i as int]);
            if !str_eq(e.token.as_str(), token) {
                kept.push(
                    Entry {
                        token: e.token.clone(),
                        user_id: e.user_id.clone(),
                        expires_at: e.expires_at,
                    },
                );
                assert(kept@.drop_last() =~= kept_before);
            }
            assert forall|k: Seq<char>|
                #[trigger] lookup(kept@, k) == if k == token@ {
                    None
                } else {
                    lookup(cur, k)
                } by {
                if k != token@ {
                    assert(lookup(kept_before, k) == lookup(before.subrange(0, i as int), k));
                }
            }
            i += 1;
        }
        assert(before.subrange(0, before.len() as int) =~= before);
        self.items = kept;
        assert(self.entries() =~= entries_of(before).remove(token@));
        Ok(())
    }
}

} // verus!
