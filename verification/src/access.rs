//! Per-path, per-role access rule declaration.
//!
//! The boundary authentication layer checks `can_access` before it resolves
//! which authenticated identity is connecting, so an anonymous connection is
//! evaluated against the `anonymous` role's `can_access` first.  If that is
//! false the boundary answers "resource not found"; if it is true but
//! `can_construct` is false, playback is refused with "unauthorized".
//! Granting anonymous a minimal `can_access` without `can_construct`
//! therefore keeps a path's existence from leaking while still blocking
//! anonymous playback.

use vstd::prelude::*;
use vstd::string::StringExecFns;

verus! {

/// One declared permission: what `role` may do on `path`.
#[derive(Clone, Debug)]
pub struct AccessRule {
    pub path: String,
    pub role: String,
    pub can_access: bool,
    pub can_construct: bool,
}

/// The role token of unauthenticated connections.
pub open spec fn anonymous_role() -> Seq<char> {
    "anonymous"@
}

/// Whether some role in `roles` is named `name`.
pub open spec fn contains_role(roles: Seq<String>, name: Seq<char>) -> bool {
    exists|i: int| 0 <= i < roles.len() && roles[i]@ == name
}

/// Whether `rule` declares exactly (`path`, `role`, `can_access`,
/// `can_construct`).
pub open spec fn rule_is(
    rule: AccessRule,
    path: Seq<char>,
    role: Seq<char>,
    can_access: bool,
    can_construct: bool,
) -> bool {
    &&& rule.path@ == path
    &&& rule.role@ == role
    &&& rule.can_access == can_access
    &&& rule.can_construct == can_construct
}

/// Whether `roles` already names the anonymous role, per [`contains_role`].
pub fn contains_anonymous(roles: &Vec<String>) -> (b: bool)
    ensures
        b == contains_role(roles@, anonymous_role()),
{
    let anon: String = "anonymous".to_owned();
    let mut i: usize = 0;
    while i < roles.len()
        invariant
            i <= roles.len(),
            anon@ == anonymous_role(),
            forall|j: int| 0 <= j < i ==> roles@[j]@ != anonymous_role(),
        decreases roles.len() - i,
    {
        if roles[i] == anon {
            return true;
        }
        i = i + 1;
    }
    false
}

/// Declares the access rules for `path`: every permitted role may access
/// and construct (play), and if `anonymous` is not among the permitted
/// roles, an implicit floor rule grants it access without construct, so
/// that unauthenticated clients get "not found" rather than "forbidden" on
/// paths they may not play.  An empty role set degrades to the floor rule
/// alone.  Pure data transform: it has no failure mode.
pub fn declare_access_rules(path: &str, roles: &Vec<String>) -> (r: Vec<AccessRule>)
    ensures
        contains_role(roles@, anonymous_role()) ==> r@.len() == roles@.len(),
        !contains_role(roles@, anonymous_role()) ==> r@.len() == roles@.len() + 1,
        forall|i: int|
            0 <= i < roles@.len() ==> rule_is(#[trigger] r@[i], path@, roles@[i]@, true, true),
        !contains_role(roles@, anonymous_role()) ==> rule_is(
            r@[roles@.len() as int],
            path@,
            anonymous_role(),
            true,
            false,
        ),
{
    let mut r: Vec<AccessRule> = Vec::new();
    let mut i: usize = 0;
    while i < roles.len()
        invariant
            i <= roles.len(),
            r@.len() == i,
            forall|j: int| 0 <= j < i ==> rule_is(#[trigger] r@[j], path@, roles@[j]@, true, true),
        decreases roles.len() - i,
    {
        let role: String = roles[i].clone();
        r.push(
            AccessRule {
                path: path.to_owned(),
                role,
                can_access: true,
                can_construct: true,
            },
        );
        i = i + 1;
    }
    if !contains_anonymous(roles) {
        r.push(
            AccessRule {
                path: path.to_owned(),
                role: "anonymous".to_owned(),
                can_access: true,
                can_construct: false,
            },
        );
    }
    r
}

} // verus!
