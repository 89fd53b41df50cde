//! User accounts.
use vstd::prelude::*;
use crate::models::role::RoleResource;
use crate::utils::upload::{build_photo_url, photo_url_of};

verus! {

/// A stored user account. Instants are micro-seconds since the Unix epoch.
#[derive(Debug, Clone)]
pub struct User {
    pub id: String,
    pub name: String,
    pub email: String,
    pub username: Option<String>,
    pub password: Option<String>,
    pub photo: Option<String>,
    pub is_root: bool,
    pub is_active: bool,
    pub email_verified: bool,
    pub role_id: Option<String>,
    pub created_at: i64,
    pub updated_at: i64,
    pub deleted_at: Option<i64>,
}

/// A user as the API shows it: no password, no deletion mark, the photo as a
/// public URL and the user's role when it was looked up.
#[derive(Debug, Clone)]
pub struct UserResource {
    pub id: String,
    pub name: String,
    pub email: String,
    pub username: Option<String>,
    pub photo: Option<String>,
    pub is_root: bool,
    pub is_active: bool,
    pub email_verified: bool,
    pub role_id: Option<String>,
    pub role: Option<RoleResource>,
    pub created_at: i64,
    pub updated_at: i64,
}

/// A user account about to be stored. Instants are micro-seconds since the epoch.
#[derive(Debug, Clone)]
pub struct NewUser {
    pub id: String,
    pub name: String,
    pub email: Option<String>,
    pub username: Option<String>,
    pub password: Option<String>,
    pub is_root: bool,
    pub is_active: bool,
    pub email_verified: bool,
    pub role_id: Option<String>,
    pub created_at: i64,
    pub updated_at: i64,
}

/// The view of an optional string.
pub open spec fn opt_view(o: Option<String>) -> Option<Seq<char>> {
    match o {
        Some(s) => Some(s@),
        None => None,
    }
}

/// A copy of an optional string.
pub fn clone_opt(o: &Option<String>) -> (r: Option<String>)
    ensures
        opt_view(r) == opt_view(*o),
{
    match o {
        Some(s) => Some(s.clone()),
        None => None,
    }
}

/// The public photo URL of a stored photo name, if any.
pub open spec fn photo_url_opt(app_url: Seq<char>, photo: Option<String>) -> Option<Seq<char>> {
    match photo {
        Some(p) => Some(photo_url_of(app_url, p@)),
        None => None,
    }
}

/// Whether `r` shows the user `u` with role `role`, photos served under `app_url`.
pub open spec fn shows_user(r: UserResource, u: User, role: Option<RoleResource>, app_url: Seq<char>) -> bool {
    &&& r.id@ == u.id@
    &&& r.name@ == u.name@
    &&& r.email@ == u.email@
    &&& opt_view(r.username) == opt_view(u.username)
    &&& opt_view(r.photo) == photo_url_opt(app_url, u.photo)
    &&& r.is_root == u.is_root
    &&& r.is_active == u.is_active
    &&& r.email_verified == u.email_verified
    &&& opt_view(r.role_id) == opt_view(u.role_id)
    &&& r.role == role
    &&& r.created_at == u.created_at
    &&& r.updated_at == u.updated_at
}

/// The resource that shows user `u`, with its role and its photo's URL.
pub fn serialize_user(u: &User, role: Option<RoleResource>, app_url: &str) -> (r: UserResource)
    ensures
        shows_user(r, *u, role, app_url@),
{
    let photo = match &u.photo {
        Some(p) => Some(build_photo_url(app_url, p.as_str())),
        None => None,
    };
    UserResource {
        id: u.id.clone(),
        name: u.name.clone(),
        email: u.email.clone(),
        username: clone_opt(&u.username),
        photo,
        is_root: u.is_root,
        is_active: u.is_active,
        email_verified: u.email_verified,
        role_id: clone_opt(&u.role_id),
        role,
        created_at: u.created_at,
        updated_at: u.updated_at,
    }
}


/// A user resource shows the stored user as it is: the same id, name,
/// address, username, flags, role id and instants; a stored photo is shown
/// as its URL under the application's address, and no photo as none.
pub proof fn lemma_resource_shows_user(r: UserResource, u: User, role: Option<RoleResource>, app_url: Seq<char>)
    requires
        shows_user(r, u, role, app_url),
    ensures
        r.id@ == u.id@,
        r.name@ == u.name@,
        r.email@ == u.email@,
        opt_view(r.username) == opt_view(u.username),
        r.is_root == u.is_root,
        r.is_active == u.is_active,
        r.email_verified == u.email_verified,
        opt_view(r.role_id) == opt_view(u.role_id),
        r.role == role,
        r.created_at == u.created_at,
        r.updated_at == u.updated_at,
        u.photo matches Some(p) ==> (r.photo matches Some(q) && q@ == app_url + "/storage/photos/"@ + p@),
        u.photo is None ==> r.photo is None,
{
}

} // verus!
