//! Role-based authorization: a table from path prefixes to allowed roles.
//!
//! The longest prefix of the request path that the table lists decides
//! (the earliest such entry on a tie). A path that no prefix matches is
//! refused: the table is an allow-list.

use vstd::prelude::*;
use crate::error::ServiceError;
use crate::jwt::Claims;
use crate::text::{has_prefix, starts_with, str_eq};

verus! {

/// One row of the permission table.
#[derive(Debug)]
pub struct PermissionRule {
    pub prefix: String,
    pub roles: Vec<String>,
}

/// A permission row as a mathematical value.
pub struct RuleView {
    pub prefix: Seq<char>,
    pub roles: Seq<Seq<char>>,
}

impl View for PermissionRule {
    type V = RuleView;

    open spec fn view(&self) -> RuleView {
        RuleView { prefix: self.prefix@, roles: self.roles@.map_values(|r: String| r@) }
    }
}

pub open spec fn rules_view(rules: Seq<PermissionRule>) -> Seq<RuleView> {
    rules.map_values(|r: PermissionRule| r@)
}

/// Among the first `n` rows, the index of the longest prefix of `path`
/// (the earliest on a tie), if any row's prefix is one.
pub open spec fn longest_match(rules: Seq<RuleView>, path: Seq<char>, n: int) -> Option<int>
    decreases n,
{
    if n <= 0 {
        None
    } else {
        let prev = longest_match(rules, path, n - 1);
        if has_prefix(path, rules[n - 1].prefix) && (prev matches Some(p) ==> rules[p].prefix.len()
            < rules[n - 1].prefix.len()) {
            Some(n - 1)
        } else {
            prev
        }
    }
}

/// Whether a request for `path` by `role` may go on under `rules`.
pub open spec fn permitted(rules: Seq<RuleView>, path: Seq<char>, role: Seq<char>) -> bool {
    match longest_match(rules, path, rules.len() as int) {
        Some(i) => rules[i].roles.contains(role),
        None => false,
    }
}

/// The table this service runs with.
pub open spec fn default_rules() -> Seq<RuleView> {
    seq![
        RuleView { prefix: "/api/admin"@, roles: seq!["admin"@] },
        RuleView { prefix: "/api/user"@, roles: seq!["user"@, "admin"@] },
    ]
}

/// The table this service runs with: `/api/admin` for admins, `/api/user`
/// for users and admins.
pub fn permission_table() -> (r: Vec<PermissionRule>)
    ensures
        rules_view(r@) == default_rules(),
{
    let mut admin_roles: Vec<String> = Vec::new();
    admin_roles.push(String::from_str("admin"));
    let mut user_roles: Vec<String> = Vec::new();
    user_roles.push(String::from_str("user"));
    user_roles.push(String::from_str("admin"));
    let mut table: Vec<PermissionRule> = Vec::new();
    table.push(PermissionRule { prefix: String::from_str("/api/admin"), roles: admin_roles });
    table.push(PermissionRule { prefix: String::from_str("/api/user"), roles: user_roles });
    assert(table@[0]@.roles =~= seq!["admin"@]);
    assert(table@[1]@.roles =~= seq!["user"@, "admin"@]);
    assert(rules_view(table@) =~= default_rules());
    table
}

/// Whether `role` is one of `roles`.
fn role_listed(roles: &Vec<String>, role: &str) -> (r: bool)
    ensures
        r == roles@.map_values(|x: String| x@).contains(role@),
{
    let ghost view = roles@.map_values(|x: String| x@);
    let mut i: usize = 0;
    while i < roles.len()
        invariant
            view == roles@.map_values(|x: String| x@),
            i <= roles@.len(),
            forall|j: int| 0 <= j < i ==> view[j] != role@,
        decreases roles@.len() - i,
    {
        if str_eq(roles[i].as_str(), role) {
            assert(view[i as int] == role@);
            return true;
        }
        i += 1;
    }
    false
}

/// Whether a request for `path` by `role` may go on under `rules`.
pub fn check_permission(rules: &Vec<PermissionRule>, path: &str, role: &str) -> (r: bool)
    ensures
        r == permitted(rules_view(rules@), path@, role@),
{
    let ghost rv = rules_view(rules@);
    let mut best: Option<usize> = None;
    let mut i: usize = 0;
    while i < rules.len()
        invariant
            rv == rules_view(rules@),
            i <= rules@.len(),
            match best {
                Some(b) => longest_match(rv, path@, i as int) == Some(b as int),
                None => longest_match(rv, path@, i as int) == None::<int>,
            },
            best matches Some(b) ==> b < i,
        decreases rules@.len() - i,
    {
        let rule = &rules[i];
        if starts_with(path, rule.prefix.as_str()) {
            let longer = match best {
                Some(b) => rules[b].prefix.unicode_len() < rule.prefix.unicode_len(),
                None => true,
            };
            if longer {
                best = Some(i);
            }
        }
        i += 1;
    }
    match best {
        Some(b) => role_listed(&rules[b].roles, role),
        None => false,
    }
}

/// Whether the holder of `user_info` may reach `path` under the service's
/// permission table.
pub fn has_permission(user_info: Claims, path: &str) -> (r: bool)
    ensures
        r == permitted(default_rules(), path@, user_info.role@),
{
    let table = permission_table();
    check_permission(&table, path, user_info.role.as_str())
}

/// The authorization stage of the request pipeline.
pub struct RbacMiddleware;

impl RbacMiddleware {
    /// The stage, ready to check requests against the service's table.
    pub fn new_transform(&self) -> (r: RbacMiddlewareServie)
        ensures
            rules_view(r.rules@) == default_rules(),
    {
        RbacMiddlewareServie { rules: permission_table() }
    }
}

/// The authorization check applied to each request.
pub struct RbacMiddlewareServie {
    pub rules: Vec<PermissionRule>,
}

/// What the authorization stage answers for a request for `path` whose
/// authenticated identity is `identity`.
pub open spec fn authorization_outcome(
    rules: Seq<RuleView>,
    identity: Option<Seq<char>>,
    path: Seq<char>,
) -> Result<(), ServiceError> {
    match identity {
        None => Err(ServiceError::InternalError),
        Some(role) => if permitted(rules, path, role) {
            Ok(())
        } else {
            Err(ServiceError::Forbidden)
        },
    }
}

impl RbacMiddlewareServie {
    /// Forwards (`Ok`) a request for `path` whose identity may reach it,
    /// refuses it with `Forbidden` otherwise, and answers `InternalError`
    /// when no identity was attached: authentication did not run before.
    pub fn call(&self, identity: Option<&Claims>, path: &str) -> (r: Result<(), ServiceError>)
        ensures
            r == authorization_outcome(
                rules_view(self.rules@),
                match identity {
                    Some(c) => Some(c.role@),
                    None => None,
                },
                path@,
            ),
    {
        match identity {
            None => Err(ServiceError::InternalError),
            Some(claims) => if check_permission(&self.rules, path, claims.role.as_str()) {
                Ok(())
            } else {
                Err(ServiceError::Forbidden)
            },
        }
    }
}

} // verus!
