//! Permissions: a tree of categories, menus and actions.
use vstd::prelude::*;
use crate::models::user::{clone_opt, opt_view};

verus! {

/// A stored permission. `parent_id` links it into the tree; `perm_type` is
/// `category`, `menu` or `action`. Instants are micro-seconds since the epoch.
#[derive(Debug, Clone)]
pub struct Permission {
    pub id: String,
    pub parent_id: Option<String>,
    pub name: String,
    pub label: String,
    pub perm_type: String,
    pub route: Option<String>,
    pub sort_order: i32,
    pub created_at: i64,
    pub updated_at: i64,
    pub deleted_at: Option<i64>,
}

/// A permission as the API shows it.
#[derive(Debug, Clone)]
pub struct PermissionResource {
    pub id: String,
    pub parent_id: Option<String>,
    pub name: String,
    pub label: String,
    pub perm_type: String,
    pub route: Option<String>,
    pub sort_order: i32,
    pub created_at: i64,
    pub updated_at: i64,
}

/// A permission with the permissions directly below it.
pub struct PermissionNode {
    pub permission: PermissionResource,
    pub children: Vec<PermissionNode>,
}

/// Whether `r` shows the permission `p`.
pub open spec fn shows_permission(r: PermissionResource, p: Permission) -> bool {
    &&& r.id@ == p.id@
    &&& opt_view(r.parent_id) == opt_view(p.parent_id)
    &&& r.name@ == p.name@
    &&& r.label@ == p.label@
    &&& r.perm_type@ == p.perm_type@
    &&& opt_view(r.route) == opt_view(p.route)
    &&& r.sort_order == p.sort_order
    &&& r.created_at == p.created_at
    &&& r.updated_at == p.updated_at
}

/// The resource that shows permission `p`.
pub fn serialize_permission(p: &Permission) -> (r: PermissionResource)
    ensures
        shows_permission(r, *p),
{
    PermissionResource {
        id: p.id.clone(),
        parent_id: clone_opt(&p.parent_id),
        name: p.name.clone(),
        label: p.label.clone(),
        perm_type: p.perm_type.clone(),
        route: clone_opt(&p.route),
        sort_order: p.sort_order,
        created_at: p.created_at,
        updated_at: p.updated_at,
    }
}

/// A tree node showing permission `p` above the given children.
pub fn serialize_permission_tree(p: &Permission, children: Vec<PermissionNode>) -> (n: PermissionNode)
    ensures
        shows_permission(n.permission, *p),
        n.children@ == children@,
{
    PermissionNode { permission: serialize_permission(p), children }
}


/// A permission resource shows the stored permission as it is: the same id,
/// parent, name, label, type, route, sort order and instants.
pub proof fn lemma_resource_shows_permission(r: PermissionResource, p: Permission)
    requires
        shows_permission(r, p),
    ensures
        r.id@ == p.id@,
        opt_view(r.parent_id) == opt_view(p.parent_id),
        r.name@ == p.name@,
        r.label@ == p.label@,
        r.perm_type@ == p.perm_type@,
        opt_view(r.route) == opt_view(p.route),
        r.sort_order == p.sort_order,
        r.created_at == p.created_at,
        r.updated_at == p.updated_at,
{
}

} // verus!
