//! Role-based access control for console widgets.
//!
//! A widget names the roles that may see it; a user passes the check when
//! the widget requires no role at all or the user holds at least one of the
//! required roles.

use vstd::prelude::*;
use vstd::string::StringExecFns;

verus! {

/// Standard roles available across all Poly apps. Apps may define further
/// roles of their own.
#[derive(Debug, Clone, PartialEq, Eq, Hash, Structural)]
pub enum StandardRole {
    /// Read-only access to observability data.
    Viewer,
    /// Full operational access (deploy, configure, review).
    Operator,
    /// Compliance audit access (sanitization logs, regulatory export).
    Compliance,
}

/// One of the user's roles equals this role name.
pub open spec fn holds_role(user_roles: Seq<String>, role: Seq<char>) -> bool {
    exists|i: int| 0 <= i < user_roles.len() && user_roles[i]@ == role
}

/// The user may access: no role is required, or the user holds one of the
/// required roles.
pub open spec fn access_allowed(user_roles: Seq<String>, required_roles: Seq<String>) -> bool {
    required_roles.len() == 0 || exists|i: int|
        0 <= i < required_roles.len() && holds_role(user_roles, required_roles[i]@)
}

/// Check whether the user's roles satisfy a widget's required roles.
pub fn check_access(user_roles: &[String], required_roles: &[String]) -> (r: bool)
    ensures
        r == access_allowed(user_roles@, required_roles@),
{
    if required_roles.len() == 0 {
        return true;
    }
    let mut i: usize = 0;
    while i < required_roles.len()
        invariant
            i <= required_roles@.len(),
            forall|a: int| 0 <= a < i ==> !holds_role(user_roles@, required_roles@[a]@),
        decreases required_roles@.len() - i,
    {
        let mut j: usize = 0;
        while j < user_roles.len()
            invariant
                i < required_roles@.len(),
                j <= user_roles@.len(),
                forall|b: int| 0 <= b < j ==> user_roles@[b]@ != required_roles@[i as int]@,
            decreases user_roles@.len() - j,
        {
            if user_roles[j] == required_roles[i] {
                return true;
            }
            j += 1;
        }
        i += 1;
    }
    false
}

/// The suffix a standard role contributes to its qualified name.
pub open spec fn spec_role_suffix(role: StandardRole) -> Seq<char> {
    match role {
        StandardRole::Viewer => "viewer"@,
        StandardRole::Operator => "operator"@,
        StandardRole::Compliance => "compliance"@,
    }
}

/// Format a role name with an app prefix, as `app-suffix`.
pub fn format_role(app: &str, role: StandardRole) -> (r: String)
    ensures
        r@ == app@ + "-"@ + spec_role_suffix(role),
{
    let suffix: &str = match role {
        StandardRole::Viewer => "viewer",
        StandardRole::Operator => "operator",
        StandardRole::Compliance => "compliance",
    };
    let mut out = app.to_owned();
    out.append("-");
    out.append(suffix);
    out
}

} // verus!
