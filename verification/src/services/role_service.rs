//! Roles: listing, creating, updating and deleting, and their permissions.
use vstd::prelude::*;
use crate::clock::now_micros;
use crate::errors::{AppError, AppResult, ErrorKind};
use crate::models::permission::{shows_permission, Permission};
use crate::models::role::{serialize_role, shows_role, Role, RoleResource};
use crate::models::user::{clone_opt, opt_view};
use crate::services::permission_service::serialize_all;
use crate::utils::ids::{is_uuid_text, new_uuid};

verus! {

/// Form of a new role.
pub struct CreateRoleRequest {
    pub name: String,
    pub description: Option<String>,
    pub permission_ids: Option<Vec<String>>,
}

/// Changes to a role; absent fields keep their value, and the permissions
/// are replaced only when a list is given.
pub struct UpdateRoleRequest {
    pub name: Option<String>,
    pub description: Option<String>,
    pub permission_ids: Option<Vec<String>>,
}

/// A role about to be stored.
pub struct NewRole {
    pub id: String,
    pub name: String,
    pub description: Option<String>,
    pub created_at: i64,
    pub updated_at: i64,
}

/// The role found by a lookup, or `Role not found`.
pub fn found_role(r: Option<Role>) -> (res: AppResult<Role>)
    ensures
        match r {
            Some(x) => res == Ok::<Role, AppError>(x),
            None => res matches Err(e) && e.is(ErrorKind::NotFound, "Role not found"@),
        },
{
    match r {
        Some(x) => Ok(x),
        None => Err(AppError::new(ErrorKind::NotFound, "Role not found")),
    }
}

/// The resource showing role `r` with all the permissions granted to it.
pub fn role_with_permissions(r: &Role, perms: &Vec<Permission>) -> (res: RoleResource)
    ensures
        res.id@ == r.id@,
        res.name@ == r.name@,
        opt_view(res.description) == opt_view(r.description),
        res.created_at == r.created_at,
        res.updated_at == r.updated_at,
        res.permissions matches Some(ps) && ps@.len() == perms@.len() && forall|i: int|
            0 <= i < perms@.len() ==> shows_permission(#[trigger] ps@[i], perms@[i]),
{
    serialize_role(r, Some(serialize_all(perms)))
}

/// The role created by `req` with id `id` at `now`.
pub fn new_role_at(req: &CreateRoleRequest, id: String, now: i64) -> (n: NewRole)
    ensures
        n.id == id,
        n.name@ == req.name@,
        opt_view(n.description) == opt_view(req.description),
        n.created_at == now,
        n.updated_at == now,
{
    NewRole { id, name: req.name.clone(), description: clone_opt(&req.description), created_at: now, updated_at: now }
}

/// The role created by `req`, with a fresh id and the current time.
pub fn new_role(req: &CreateRoleRequest) -> (n: NewRole)
    ensures
        is_uuid_text(n.id@),
        n.name@ == req.name@,
        opt_view(n.description) == opt_view(req.description),
        n.created_at == n.updated_at,
        0 <= n.created_at,
{
    let id = new_uuid();
    let now = now_micros();
    new_role_at(req, id, now)
}

/// The stored fields of a role after an update.
pub struct RoleUpdate {
    pub name: String,
    pub description: Option<String>,
    pub updated_at: i64,
}

/// Role `r` changed by `req` at `now`: given fields replace the old ones.
pub fn merge_role_update(r: &Role, req: &UpdateRoleRequest, now: i64) -> (w: RoleUpdate)
    ensures
        w.name@ == (match req.name {
            Some(n) => n@,
            None => r.name@,
        }),
        opt_view(w.description) == (match req.description {
            Some(d) => Some(d@),
            None => opt_view(r.description),
        }),
        w.updated_at == now,
{
    let name = match &req.name {
        Some(n) => n.clone(),
        None => r.name.clone(),
    };
    let description = match &req.description {
        Some(d) => Some(d.clone()),
        None => clone_opt(&r.description),
    };
    RoleUpdate { name, description, updated_at: now }
}

/// Deleting a role is refused while active users hold it.
pub fn delete_check(in_use: i64) -> (res: AppResult<()>)
    ensures
        in_use > 0 ==> (res matches Err(e) && e.is(
            ErrorKind::Conflict,
            "Role is assigned to users and cannot be deleted"@,
        )),
        in_use <= 0 ==> res is Ok,
{
    if in_use > 0 {
        Err(AppError::new(ErrorKind::Conflict, "Role is assigned to users and cannot be deleted"))
    } else {
        Ok(())
    }
}

/// The grants that replace a role's permissions: one (role, permission)
/// pair per given permission id, in order.
pub fn permission_links(role_id: &str, permission_ids: &Vec<String>) -> (links: Vec<(String, String)>)
    ensures
        links@.len() == permission_ids@.len(),
        forall|i: int|
            0 <= i < links@.len() ==> (#[trigger] links@[i]).0@ == role_id@ && links@[i].1@
                == permission_ids@[i]@,
{
    let mut links: Vec<(String, String)> = Vec::new();
    let mut i: usize = 0;
    while i < permission_ids.len()
        invariant
            i <= permission_ids@.len(),
            links@.len() == i,
            forall|k: int|
                0 <= k < i ==> (#[trigger] links@[k]).0@ == role_id@ && links@[k].1@
                    == permission_ids@[k]@,
        decreases permission_ids@.len() - i,
    {
        links.push((crate::text::owned(role_id), permission_ids[i].clone()));
        i = i + 1;
    }
    links
}

} // verus!
