//! What the HTTP handlers decide before calling a service: who may go on,
//! which permission an endpoint needs, and the paging of list requests.
pub mod auth;
pub mod roles;
pub mod users;

use vstd::prelude::*;
use crate::errors::{AppError, AppResult, ErrorKind};
use crate::middleware::auth::AuthUser;
use crate::text::{chars_of, push_str, string_from_chars};

verus! {

/// The first step of a permission check: a root user is let through at once,
/// anyone else needs a lookup of the permission.
#[derive(Debug, Clone, Copy, PartialEq, Eq, Structural)]
pub enum AccessStep {
    Granted,
    NeedsLookup,
}

/// Whether `auth` may use an endpoint, given whether the user holds its
/// permission: root users always may, others only when they hold it.
pub open spec fn allowed(auth: AuthUser, holds_permission: bool) -> bool {
    auth.is_root || holds_permission
}

/// The first step of the permission check for `auth`.
pub fn access_step(auth: &AuthUser) -> (s: AccessStep)
    ensures
        s == (if auth.is_root { AccessStep::Granted } else { AccessStep::NeedsLookup }),
{
    if auth.is_root { AccessStep::Granted } else { AccessStep::NeedsLookup }
}

/// The answer once the lookup is done: refused with `Permission denied`
/// unless the user holds the permission.
pub fn access_verdict(holds_permission: bool) -> (res: AppResult<()>)
    ensures
        holds_permission ==> res is Ok,
        !holds_permission ==> (res matches Err(e) && e.is(ErrorKind::Forbidden, "Permission denied"@)),
{
    if holds_permission {
        Ok(())
    } else {
        Err(AppError::new(ErrorKind::Forbidden, "Permission denied"))
    }
}

/// The outcome of the whole permission check for `auth`, where
/// `holds_permission` is what the lookup would answer.
pub open spec fn check_outcome(auth: AuthUser, holds_permission: bool) -> bool {
    match access_step_spec(auth) {
        AccessStep::Granted => true,
        AccessStep::NeedsLookup => holds_permission,
    }
}

/// The first step of the check, as a function.
pub open spec fn access_step_spec(auth: AuthUser) -> AccessStep {
    if auth.is_root { AccessStep::Granted } else { AccessStep::NeedsLookup }
}

/// A root user passes every permission check, whatever the lookup would say;
/// any other user passes exactly when the lookup finds the permission.
pub proof fn lemma_root_bypass(auth: AuthUser, holds_permission: bool)
    ensures
        check_outcome(auth, holds_permission) == allowed(auth, holds_permission),
        auth.is_root ==> check_outcome(auth, holds_permission),
        !auth.is_root ==> (check_outcome(auth, holds_permission) <==> holds_permission),
{
}

/// The name of the permission for `action` on `resource`: `resource:action`.
pub open spec fn permission_name_of(resource: Seq<char>, action: Seq<char>) -> Seq<char> {
    resource + ":"@ + action
}

/// The name of the permission for `action` on `resource`.
pub fn permission_name(resource: &str, action: &str) -> (name: String)
    ensures
        name@ == permission_name_of(resource@, action@),
{
    let mut out = chars_of(resource);
    push_str(&mut out, ":");
    push_str(&mut out, action);
    string_from_chars(&out)
}

/// The page asked for, 1 when unspecified.
pub open spec fn page_or_default(page: Option<i64>) -> i64 {
    match page {
        Some(p) => p,
        None => 1,
    }
}

/// The page size asked for, 10 when unspecified.
pub open spec fn per_page_or_default(per_page: Option<i64>) -> i64 {
    match per_page {
        Some(p) => p,
        None => 10,
    }
}

/// The number of items skipped before page `page` of size `per_page`.
pub open spec fn offset_of(page: int, per_page: int) -> int {
    (page - 1) * per_page
}

/// The number of items skipped before page `page` of size `per_page`; the
/// arithmetic must stay within `i64`.
pub fn page_offset(page: i64, per_page: i64) -> (offset: i64)
    requires
        i64::MIN <= page - 1,
        i64::MIN <= offset_of(page as int, per_page as int) <= i64::MAX,
    ensures
        offset == offset_of(page as int, per_page as int),
{
    (page - 1) * per_page
}

/// Whether `page_offset` can compute the offset without overflow.
pub fn page_offset_fits(page: i64, per_page: i64) -> (b: bool)
    ensures
        b == (i64::MIN <= page - 1 && i64::MIN <= offset_of(page as int, per_page as int) <= i64::MAX),
{
    if page == i64::MIN {
        return false;
    }
    let p: i128 = (page as i128) - 1;
    let q: i128 = per_page as i128;
    proof {
        let bound: int = 0x8000_0000_0000_0000;
        assert(-bound * bound <= p * q <= bound * bound) by (nonlinear_arith)
            requires
                -bound <= p <= bound,
                -bound <= q <= bound,
        ;
        assert(bound * bound == 0x4000_0000_0000_0000_0000_0000_0000_0000);
    }
    let r: i128 = p * q;
    -9223372036854775808i128 <= r && r <= 9223372036854775807i128
}

/// The SQL `LIKE` pattern that matches names containing `search` (everything
/// when there is no search text).
pub open spec fn search_pattern_of(search: Option<Seq<char>>) -> Seq<char> {
    match search {
        Some(s) => "%"@ + s + "%"@,
        None => "%%"@,
    }
}

/// The SQL `LIKE` pattern for an optional search text.
pub fn search_pattern(search: Option<&str>) -> (p: String)
    ensures
        p@ == search_pattern_of(match search {
            Some(s) => Some(s@),
            None => None,
        }),
{
    let mut out = chars_of("%");
    match search {
        Some(s) => push_str(&mut out, s),
        None => {},
    }
    push_str(&mut out, "%");
    proof {
        reveal_strlit("%");
        reveal_strlit("%%");
    }
    string_from_chars(&out)
}

} // verus!
