//! Roles.
use vstd::prelude::*;
use crate::models::permission::PermissionResource;
use crate::models::user::{clone_opt, opt_view};

verus! {

/// A stored role. Instants are micro-seconds since the Unix epoch.
#[derive(Debug, Clone)]
pub struct Role {
    pub id: String,
    pub name: String,
    pub description: Option<String>,
    pub created_at: i64,
    pub updated_at: i64,
    pub deleted_at: Option<i64>,
}

/// A role as the API shows it, with its permissions when they were looked up.
#[derive(Debug, Clone)]
pub struct RoleResource {
    pub id: String,
    pub name: String,
    pub description: Option<String>,
    pub permissions: Option<Vec<PermissionResource>>,
    pub created_at: i64,
    pub updated_at: i64,
}

/// Whether `res` shows role `r` with the permissions `permissions`.
pub open spec fn shows_role(res: RoleResource, r: Role, permissions: Option<Vec<PermissionResource>>) -> bool {
    &&& res.id@ == r.id@
    &&& res.name@ == r.name@
    &&& opt_view(res.description) == opt_view(r.description)
    &&& res.permissions == permissions
    &&& res.created_at == r.created_at
    &&& res.updated_at == r.updated_at
}

/// The resource that shows role `r` with the given permissions.
pub fn serialize_role(r: &Role, permissions: Option<Vec<PermissionResource>>) -> (res: RoleResource)
    ensures
        shows_role(res, *r, permissions),
{
    RoleResource {
        id: r.id.clone(),
        name: r.name.clone(),
        description: clone_opt(&r.description),
        permissions,
        created_at: r.created_at,
        updated_at: r.updated_at,
    }
}


/// A role resource shows the stored role as it is: the same id, name,
/// description and instants, with the permissions it was given.
pub proof fn lemma_resource_shows_role(res: RoleResource, r: Role, permissions: Option<Vec<PermissionResource>>)
    requires
        shows_role(res, r, permissions),
    ensures
        res.id@ == r.id@,
        res.name@ == r.name@,
        opt_view(res.description) == opt_view(r.description),
        res.permissions == permissions,
        res.created_at == r.created_at,
        res.updated_at == r.updated_at,
{
}

} // verus!
