//! Laws that relate the library's operations to one another.

use vstd::prelude::*;
use crate::error::ServiceError;
use crate::jwt::{minted, parse_spec, ClaimsView, TokenError};
use crate::ledger::{live, LedgerRecord};
use crate::rbac::{default_rules, longest_match, permitted};
use crate::text::has_prefix;
use crate::token_service::{unexpired_claims, TokenService};

verus! {

/// Parsing a minted token under the secret it was signed with gives back
/// exactly its subject, role and expiry.
pub proof fn lemma_parse_recovers_minted(
    token: Seq<char>,
    id: Seq<char>,
    role: Seq<char>,
    exp: u64,
    secret: Seq<char>,
)
    requires
        minted(token, id, role, exp, secret),
    ensures
        parse_spec(token, secret) == Ok::<ClaimsView, TokenError>(ClaimsView { id, role, exp }),
{
}

/// A token minted at `issued_at` to live `ttl` seconds verifies, with its
/// subject and role, at every `now` before `issued_at + ttl`, and is
/// refused as unauthorized from that instant on.
pub proof fn lemma_minted_token_lifetime(
    token: Seq<char>,
    id: Seq<char>,
    role: Seq<char>,
    issued_at: u64,
    ttl: u64,
    secret: Seq<char>,
    now: u64,
)
    requires
        issued_at + ttl <= u64::MAX,
        minted(token, id, role, (issued_at + ttl) as u64, secret),
    ensures
        now < issued_at + ttl ==> unexpired_claims(token, secret, now as int) == Ok::<
            ClaimsView,
            ServiceError,
        >(ClaimsView { id, role, exp: (issued_at + ttl) as u64 }),
        now >= issued_at + ttl ==> unexpired_claims(token, secret, now as int) == Err::<
            ClaimsView,
            ServiceError,
        >(ServiceError::UnAuthorizedError),
{
}

/// A refresh token that has no ledger entry is refused as unauthorized,
/// however far off its own expiry lies.
pub proof fn lemma_revoked_refresh_token_refused(
    service: TokenService,
    entries: Map<Seq<char>, LedgerRecord>,
    token: Seq<char>,
    now: u64,
    r: Result<String, ServiceError>,
)
    requires
        !entries.contains_key(token),
        service.refresh_answer(token, Ok(live(entries, token, now as int)), now, r),
    ensures
        r == Err::<String, ServiceError>(ServiceError::UnAuthorizedError),
{
}

/// A refresh token minted at `issued_at` to live `ttl` seconds is refused as
/// unauthorized from `issued_at + ttl` on, even while its ledger entry is
/// live.
pub proof fn lemma_expired_refresh_token_refused(
    service: TokenService,
    token: Seq<char>,
    id: Seq<char>,
    role: Seq<char>,
    issued_at: u64,
    ttl: u64,
    now: u64,
    r: Result<String, ServiceError>,
)
    requires
        issued_at + ttl <= u64::MAX,
        minted(token, id, role, (issued_at + ttl) as u64, service.refresh_secret@),
        now >= issued_at + ttl,
        service.refresh_answer(token, Ok(true), now, r),
    ensures
        r == Err::<String, ServiceError>(ServiceError::UnAuthorizedError),
{
}

/// Once logout has deleted a refresh token's entry, refreshing with that
/// token is refused as unauthorized.
pub proof fn lemma_logout_revokes_refresh(
    service: TokenService,
    before: Map<Seq<char>, LedgerRecord>,
    token: Seq<char>,
    now: u64,
    r: Result<String, ServiceError>,
)
    requires
        service.refresh_answer(token, Ok(live(before.remove(token), token, now as int)), now, r),
    ensures
        r == Err::<String, ServiceError>(ServiceError::UnAuthorizedError),
{
    lemma_revoked_refresh_token_refused(service, before.remove(token), token, now, r);
}

/// Under the service's permission table every path below `/api/admin` is
/// closed to the role `user` and open to the role `admin`.
pub proof fn lemma_admin_paths_need_admin(path: Seq<char>)
    requires
        has_prefix(path, "/api/admin"@),
    ensures
        !permitted(default_rules(), path, "user"@),
        permitted(default_rules(), path, "admin"@),
{
    reveal_strlit("/api/admin");
    reveal_strlit("/api/user");
    reveal_strlit("admin");
    reveal_strlit("user");
    let rules = default_rules();
    assert(rules[0].prefix == "/api/admin"@);
    assert(rules[1].prefix == "/api/user"@);
    assert(path[5] == 'a') by {
        assert(path.subrange(0, 10)[5] == path[5]);
    }
    assert(!has_prefix(path, "/api/user"@)) by {
        if has_prefix(path, "/api/user"@) {
            assert(path.subrange(0, 9)[5] == path[5]);
        }
    }
    assert(longest_match(rules, path, 0) == None::<int>);
    assert(longest_match(rules, path, 1) == Some(0int));
    assert(longest_match(rules, path, 2) == Some(0int));
    assert(rules[0].roles == seq!["admin"@]);
    assert("admin"@ != "user"@) by {
        assert("admin"@.len() != "user"@.len());
    }
    assert(rules[0].roles[0] == "admin"@);
    assert(!rules[0].roles.contains("user"@));
    assert(rules[0].roles.contains("admin"@));
}

} // verus!
