//! Users: listing, creating, updating, deleting and profile changes.
use vstd::prelude::*;
use crate::clock::{in_range, now_micros};
use crate::errors::{AppError, AppResult, ErrorKind};
use crate::models::role::{serialize_role, shows_role, Role, RoleResource};
use crate::models::user::{clone_opt, opt_view, serialize_user, shows_user, NewUser, User, UserResource};
use crate::utils::ids::{is_uuid_text, new_uuid};
use crate::utils::password::{hash_password, password_matches, stored_hash};

verus! {

/// Form of a user created by an administrator.
pub struct CreateUserRequest {
    pub name: String,
    pub email: String,
    pub username: Option<String>,
    pub password: String,
    pub role_id: Option<String>,
    pub is_active: Option<bool>,
}

/// Changes to a user; absent fields keep their value.
pub struct UpdateUserRequest {
    pub name: Option<String>,
    pub email: Option<String>,
    pub username: Option<String>,
    pub password: Option<String>,
    pub role_id: Option<String>,
    pub is_active: Option<bool>,
}

/// Changes to the caller's own profile; absent fields keep their value.
pub struct UpdateProfileRequest {
    pub name: Option<String>,
    pub username: Option<String>,
}

/// The role shown inside a user, without its permissions.
pub fn role_summary(r: Option<Role>) -> (res: Option<RoleResource>)
    ensures
        match r {
            Some(x) => res matches Some(v) && shows_role(v, x, None),
            None => res is None,
        },
{
    match r {
        Some(x) => Some(serialize_role(&x, None)),
        None => None,
    }
}

/// The resource showing user `u` with its role summary.
pub fn user_resource(u: &User, role: Option<Role>, app_url: &str) -> (res: UserResource)
    ensures
        shows_user(res, *u, res.role, app_url@),
        match role {
            Some(x) => res.role matches Some(v) && shows_role(v, x, None),
            None => res.role is None,
        },
{
    serialize_user(u, role_summary(role), app_url)
}

/// Creating a user is refused while an active account uses the address.
pub fn create_check(existing: i64) -> (res: AppResult<()>)
    ensures
        existing > 0 ==> (res matches Err(e) && e.is(ErrorKind::Conflict, "Email already registered"@)),
        existing <= 0 ==> res is Ok,
{
    if existing > 0 {
        Err(AppError::new(ErrorKind::Conflict, "Email already registered"))
    } else {
        Ok(())
    }
}

/// Whether `n` is the account that `req` creates with id `id`, password
/// hash `hash` at `now`: not root, active unless said otherwise, unverified.
pub open spec fn created_user(n: NewUser, req: CreateUserRequest, id: Seq<char>, hash: Seq<char>, now: int) -> bool {
    &&& n.id@ == id
    &&& n.name@ == req.name@
    &&& opt_view(n.email) == Some(req.email@)
    &&& opt_view(n.username) == opt_view(req.username)
    &&& opt_view(n.password) == Some(hash)
    &&& !n.is_root
    &&& n.is_active == (match req.is_active {
        Some(b) => b,
        None => true,
    })
    &&& !n.email_verified
    &&& opt_view(n.role_id) == opt_view(req.role_id)
    &&& n.created_at == now
    &&& n.updated_at == now
}

/// The account that `req` creates with id `id` and password hash `hash` at `now`.
pub fn new_user_at(req: &CreateUserRequest, id: String, hash: String, now: i64) -> (n: NewUser)
    ensures
        created_user(n, *req, id@, hash@, now as int),
{
    NewUser {
        id,
        name: req.name.clone(),
        email: Some(req.email.clone()),
        username: clone_opt(&req.username),
        password: Some(hash),
        is_root: false,
        is_active: match req.is_active {
            Some(b) => b,
            None => true,
        },
        email_verified: false,
        role_id: clone_opt(&req.role_id),
        created_at: now,
        updated_at: now,
    }
}

/// The account created by `req`, given how many active accounts use its
/// address: refused when there is one; otherwise the password is hashed and
/// a fresh id and the current time are drawn.
pub fn create_plan(existing: i64, req: &CreateUserRequest) -> (res: AppResult<NewUser>)
    ensures
        existing > 0 ==> (res matches Err(e) && e.is(ErrorKind::Conflict, "Email already registered"@)),
        res matches Err(e) ==> e.is(ErrorKind::Conflict, "Email already registered"@) || e.is(
            ErrorKind::Internal,
            "Failed to hash password"@,
        ),
        existing <= 0 ==> (res matches Err(e) ==> e.is(ErrorKind::Internal, "Failed to hash password"@)),
        res matches Ok(n) ==> {
            &&& existing <= 0
            &&& password_matches(req.password@, stored_hash(n.password))
            &&& is_uuid_text(n.id@)
            &&& exists|now: int|
                0 <= now && #[trigger] created_user(n, *req, n.id@, stored_hash(n.password), now)
        },
{
    create_check(existing)?;
    let hash = hash_password(req.password.as_str())?;
    let id = new_uuid();
    let now = now_micros();
    let n = new_user_at(req, id, hash, now);
    assert(created_user(n, *req, n.id@, stored_hash(n.password), now as int));
    Ok(n)
}

/// The stored fields of a user after an update.
pub struct UserUpdate {
    pub name: String,
    pub email: String,
    pub username: Option<String>,
    pub password: String,
    pub role_id: Option<String>,
    pub is_active: bool,
    pub updated_at: i64,
}

/// Whether `w` is user `u` changed by `req` at `now`, with stored password
/// `password`: each field given in `req` replaces the old one, the others stay.
pub open spec fn updated_user(w: UserUpdate, u: User, req: UpdateUserRequest, password: Seq<char>, now: int) -> bool {
    &&& w.name@ == (match req.name {
        Some(n) => n@,
        None => u.name@,
    })
    &&& w.email@ == (match req.email {
        Some(e) => e@,
        None => u.email@,
    })
    &&& opt_view(w.username) == (match req.username {
        Some(n) => Some(n@),
        None => opt_view(u.username),
    })
    &&& w.password@ == password
    &&& opt_view(w.role_id) == (match req.role_id {
        Some(r) => Some(r@),
        None => opt_view(u.role_id),
    })
    &&& w.is_active == (match req.is_active {
        Some(b) => b,
        None => u.is_active,
    })
    &&& w.updated_at == now
}

/// User `u` changed by `req` at `now`, storing `password` as its password hash.
pub fn merge_user_update(u: &User, req: UpdateUserRequest, password: String, now: i64) -> (w: UserUpdate)
    ensures
        updated_user(w, *u, req, password@, now as int),
{
    let name = match req.name {
        Some(n) => n,
        None => u.name.clone(),
    };
    let email = match req.email {
        Some(e) => e,
        None => u.email.clone(),
    };
    let username = match req.username {
        Some(n) => Some(n),
        None => clone_opt(&u.username),
    };
    let role_id = match req.role_id {
        Some(r) => Some(r),
        None => clone_opt(&u.role_id),
    };
    let is_active = match req.is_active {
        Some(b) => b,
        None => u.is_active,
    };
    UserUpdate { name, email, username, password, role_id, is_active, updated_at: now }
}

/// The update of user `u` by `req` now: a new password, when given, is
/// hashed; otherwise the stored hash stays (the empty text when there was none).
pub fn update_plan(u: &User, req: UpdateUserRequest) -> (res: AppResult<UserUpdate>)
    ensures
        res matches Err(e) ==> e.is(ErrorKind::Internal, "Failed to hash password"@) && req.password
            is Some,
        req.password is None ==> res is Ok,
        res matches Ok(w) ==> {
            &&& exists|now: int|
                0 <= now && #[trigger] updated_user(w, *u, req, w.password@, now)
            &&& match req.password {
                Some(p) => password_matches(p@, w.password@),
                None => w.password@ == stored_hash(u.password),
            }
        },
{
    let password = match &req.password {
        Some(p) => hash_password(p.as_str())?,
        None => match &u.password {
            Some(h) => h.clone(),
            None => String::new(),
        },
    };
    let now = now_micros();
    let w = merge_user_update(u, req, password, now);
    assert(updated_user(w, *u, req, w.password@, now as int));
    Ok(w)
}

/// The stored fields of a profile after a change.
pub struct ProfileUpdate {
    pub name: String,
    pub username: Option<String>,
    pub updated_at: i64,
}

/// User `u`'s profile changed by `req` at `now`: given fields replace the old ones.
pub fn merge_profile(u: &User, req: UpdateProfileRequest, now: i64) -> (w: ProfileUpdate)
    ensures
        w.name@ == (match req.name {
            Some(n) => n@,
            None => u.name@,
        }),
        opt_view(w.username) == (match req.username {
            Some(n) => Some(n@),
            None => opt_view(u.username),
        }),
        w.updated_at == now,
{
    let name = match req.name {
        Some(n) => n,
        None => u.name.clone(),
    };
    let username = match req.username {
        Some(n) => Some(n),
        None => clone_opt(&u.username),
    };
    ProfileUpdate { name, username, updated_at: now }
}


/// An account created by an administrator carries what the form gave: its
/// name, address, username and role; the stored password is the given hash;
/// it is active unless the form says otherwise, never root, and not yet
/// verified.
pub proof fn lemma_created_account_keeps_form(
    n: NewUser,
    req: CreateUserRequest,
    id: Seq<char>,
    hash: Seq<char>,
    now: int,
)
    requires
        created_user(n, req, id, hash, now),
    ensures
        n.id@ == id,
        n.name@ == req.name@,
        n.email matches Some(e) && e@ == req.email@,
        match req.username {
            Some(x) => n.username matches Some(y) && y@ == x@,
            None => n.username is None,
        },
        match req.role_id {
            Some(x) => n.role_id matches Some(y) && y@ == x@,
            None => n.role_id is None,
        },
        n.password matches Some(p) && p@ == hash,
        req.is_active == Some(false) ==> !n.is_active,
        req.is_active != Some(false) ==> n.is_active,
        !n.is_root,
        !n.email_verified,
        n.created_at == now && n.updated_at == now,
{
}

/// An update replaces each field that the request gives and keeps every
/// other field of the stored user; the stored hash is the one handed in and
/// the update is stamped with its instant.
pub proof fn lemma_update_replaces_given_fields(
    w: UserUpdate,
    u: User,
    req: UpdateUserRequest,
    password: Seq<char>,
    now: int,
)
    requires
        updated_user(w, u, req, password, now),
    ensures
        req.name matches Some(x) ==> w.name@ == x@,
        req.name is None ==> w.name@ == u.name@,
        req.email matches Some(x) ==> w.email@ == x@,
        req.email is None ==> w.email@ == u.email@,
        req.username matches Some(x) ==> (w.username matches Some(y) && y@ == x@),
        req.username is None ==> opt_view(w.username) == opt_view(u.username),
        req.role_id matches Some(x) ==> (w.role_id matches Some(y) && y@ == x@),
        req.role_id is None ==> opt_view(w.role_id) == opt_view(u.role_id),
        req.is_active matches Some(b) ==> w.is_active == b,
        req.is_active is None ==> w.is_active == u.is_active,
        w.password@ == password,
        w.updated_at == now,
{
}

} // verus!
