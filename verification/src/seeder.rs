//! The initial data: the permission tree and the root account.
use vstd::prelude::*;
use crate::clock::{in_range, now_micros};
use crate::errors::AppResult;
use crate::models::permission::Permission;
use crate::models::user::{opt_view, NewUser};
use crate::text::{chars_of, owned, push_all, push_str, string_from_chars, suffix_from};
use crate::utils::ids::{is_uuid_text, new_uuid};
use crate::utils::password::{hash_password, password_matches, stored_hash};

verus! {

/// One seeded permission: label, name, type, route, sort order and the
/// index of its parent among the seeded permissions.
pub struct SeedEntry {
    pub label: Seq<char>,
    pub name: Seq<char>,
    pub kind: Seq<char>,
    pub route: Option<Seq<char>>,
    pub order: i32,
    pub parent: Option<int>,
}

/// A seeded permission.
pub open spec fn entry(
    label: Seq<char>,
    name: Seq<char>,
    kind: Seq<char>,
    route: Option<Seq<char>>,
    order: i32,
    parent: Option<int>,
) -> SeedEntry {
    SeedEntry { label, name, kind, route, order, parent }
}

/// The seeded permission tree, parents before their children: the `Main`
/// and `Settings` categories, the dashboard menu, the administrator
/// category with the user, role and permission menus, the five actions on
/// users and on roles, and the index action on permissions.
pub open spec fn seed_table() -> Seq<SeedEntry> {
    seq![
        entry("Main"@, "main"@, "category"@, None, 1, None),
        entry("Settings"@, "settings"@, "category"@, None, 2, None),
        entry("Dashboard"@, "dashboard"@, "menu"@, Some("/dashboard"@), 1, Some(0)),
        entry("Administrator"@, "administrator"@, "category"@, None, 1, Some(1)),
        entry("User"@, "user"@, "menu"@, Some("/settings/users"@), 1, Some(3)),
        entry("Role"@, "role"@, "menu"@, Some("/settings/roles"@), 2, Some(3)),
        entry("Permission"@, "permission"@, "menu"@, Some("/settings/permissions"@), 3, Some(3)),
        entry("Index"@, "user:index"@, "action"@, None, 1, Some(4)),
        entry("Index"@, "role:index"@, "action"@, None, 1, Some(5)),
        entry("Show"@, "user:show"@, "action"@, None, 2, Some(4)),
        entry("Show"@, "role:show"@, "action"@, None, 2, Some(5)),
        entry("Create"@, "user:create"@, "action"@, None, 3, Some(4)),
        entry("Create"@, "role:create"@, "action"@, None, 3, Some(5)),
        entry("Edit"@, "user:edit"@, "action"@, None, 4, Some(4)),
        entry("Edit"@, "role:edit"@, "action"@, None, 4, Some(5)),
        entry("Delete"@, "user:delete"@, "action"@, None, 5, Some(4)),
        entry("Delete"@, "role:delete"@, "action"@, None, 5, Some(5)),
        entry("Index"@, "permission:index"@, "action"@, None, 1, Some(6)),
    ]
}

/// Whether `p` is the seeded permission `e`, stored at `now`, with the
/// seeded permissions `rows` before it.
pub open spec fn seeded_as(p: Permission, e: SeedEntry, rows: Seq<Permission>, now: int) -> bool {
    &&& p.label@ == e.label
    &&& p.name@ == e.name
    &&& p.perm_type@ == e.kind
    &&& opt_view(p.route) == e.route
    &&& p.sort_order == e.order
    &&& opt_view(p.parent_id) == (match e.parent {
        Some(i) => Some(rows[i].id@),
        None => None,
    })
    &&& p.created_at == now
    &&& p.updated_at == now
    &&& p.deleted_at is None
}

/// The upper case of `c`, as `char::to_uppercase` gives it (one or more
/// characters).
pub uninterp spec fn upper_of(c: char) -> Seq<char>;

/// The upper case of one character.
/// Trusted: `char::to_uppercase` gives a function of its argument, named
/// `upper_of`; its documentation says it maps ASCII `a`..`z` to `A`..`Z` and
/// leaves other ASCII characters as they are.
#[verifier::external_body]
fn char_upper(c: char) -> (s: String)
    ensures
        s@ == upper_of(c),
        'a' <= c <= 'z' ==> s@ == seq![((c as int) - 32) as char],
        (c as int) < 128 && !('a' <= c <= 'z') ==> s@ == seq![c],
{
    c.to_uppercase().collect()
}

/// `s` with its first character in upper case.
pub open spec fn capitalized(s: Seq<char>) -> Seq<char> {
    if s.len() == 0 {
        Seq::empty()
    } else {
        upper_of(s[0]) + s.skip(1)
    }
}

/// `s`, starting with an ASCII lower-case letter, with that letter in upper case.
pub open spec fn ascii_capitalized(s: Seq<char>) -> Seq<char> {
    seq![((s[0] as int) - 32) as char] + s.skip(1)
}

/// `s` with its first character in upper case.
pub fn capitalize(s: &str) -> (out: String)
    ensures
        out@ == capitalized(s@),
        s@.len() > 0 && 'a' <= s@[0] <= 'z' ==> out@ == ascii_capitalized(s@),
        s@.len() > 0 && (s@[0] as int) < 128 && !('a' <= s@[0] <= 'z') ==> out@ == s@,
{
    let cs = chars_of(s);
    if cs.len() == 0 {
        return String::new();
    }
    let first = char_upper(cs[0]);
    let mut out = chars_of(first.as_str());
    let rest = suffix_from(&cs, 1);
    push_all(&mut out, &rest);
    string_from_chars(&out)
}

fn seed_row(
    id: String,
    parent: Option<String>,
    label: &str,
    name: &str,
    kind: &str,
    route: Option<&str>,
    order: i32,
    now: i64,
) -> (p: Permission)
    ensures
        p.id == id,
        opt_view(p.parent_id) == opt_view(parent),
        p.label@ == label@,
        p.name@ == name@,
        p.perm_type@ == kind@,
        opt_view(p.route) == (match route {
            Some(r) => Some(r@),
            None => None,
        }),
        p.sort_order == order,
        p.created_at == now,
        p.updated_at == now,
        p.deleted_at is None,
{
    Permission {
        id,
        parent_id: parent,
        name: owned(name),
        label: owned(label),
        perm_type: owned(kind),
        route: match route {
            Some(r) => Some(owned(r)),
            None => None,
        },
        sort_order: order,
        created_at: now,
        updated_at: now,
        deleted_at: None,
    }
}

fn add_row(
    rows: &mut Vec<Permission>,
    parent: Option<usize>,
    label: &str,
    name: &str,
    kind: &str,
    route: Option<&str>,
    order: i32,
    now: i64,
)
    requires
        parent matches Some(i) ==> i < old(rows)@.len(),
    ensures
        final(rows)@.len() == old(rows)@.len() + 1,
        final(rows)@.take(old(rows)@.len() as int) == old(rows)@,
        is_uuid_text(final(rows)@.last().id@),
        seeded_as(
            final(rows)@.last(),
            entry(
                label@,
                name@,
                kind@,
                match route {
                    Some(r) => Some(r@),
                    None => None,
                },
                order,
                match parent {
                    Some(i) => Some(i as int),
                    None => None,
                },
            ),
            old(rows)@,
            now as int,
        ),
{
    let parent_id = match parent {
        Some(i) => Some(rows[i].id.clone()),
        None => None,
    };
    let id = new_uuid();
    let row = seed_row(id, parent_id, label, name, kind, route, order, now);
    rows.push(row);
    assert(final(rows)@.take(old(rows)@.len() as int) =~= old(rows)@);
}

/// Adds the permissions for `action` on users and on roles, labelled with the
/// capitalized action, below the user and role menus (rows 4 and 5).
fn add_actions(rows: &mut Vec<Permission>, action: &str, order: i32, now: i64)
    requires
        old(rows)@.len() > 5,
        action@.len() > 0,
        'a' <= action@[0] <= 'z',
    ensures
        final(rows)@.len() == old(rows)@.len() + 2,
        final(rows)@.take(old(rows)@.len() as int) == old(rows)@,
        is_uuid_text(final(rows)@[old(rows)@.len() as int].id@),
        is_uuid_text(final(rows)@[old(rows)@.len() as int + 1].id@),
        seeded_as(
            final(rows)@[old(rows)@.len() as int],
            entry(
                ascii_capitalized(action@),
                crate::handlers::permission_name_of("user"@, action@),
                "action"@,
                None,
                order,
                Some(4),
            ),
            old(rows)@,
            now as int,
        ),
        seeded_as(
            final(rows)@[old(rows)@.len() as int + 1],
            entry(
                ascii_capitalized(action@),
                crate::handlers::permission_name_of("role"@, action@),
                "action"@,
                None,
                order,
                Some(5),
            ),
            final(rows)@.take(old(rows)@.len() as int + 1),
            now as int,
        ),
{
    let label = capitalize(action);
    let user_name = crate::handlers::permission_name("user", action);
    let role_name = crate::handlers::permission_name("role", action);
    let ghost start = rows@;
    add_row(rows, Some(4), label.as_str(), user_name.as_str(), "action", None, order, now);
    let ghost mid = rows@;
    add_row(rows, Some(5), label.as_str(), role_name.as_str(), "action", None, order, now);
    assert(rows@.take(start.len() as int) =~= start) by {
        assert(rows@.take(mid.len() as int) == mid);
    }
    assert(rows@[start.len() as int] == mid.last());
    assert(rows@.take(start.len() as int + 1) == mid);
}

/// The permissions to seed at `now`, each with a fresh id, parents before
/// children; none when permissions exist already.
pub fn permission_seed_at(existing: i64, now: i64) -> (rows: Vec<Permission>)
    ensures
        existing > 0 ==> rows@.len() == 0,
        existing <= 0 ==> rows@.len() == seed_table().len(),
        existing <= 0 ==> forall|i: int|
            0 <= i < rows@.len() ==> is_uuid_text(#[trigger] rows@[i].id@) && seeded_as(
                rows@[i],
                seed_table()[i],
                rows@,
                now as int,
            ),
{
    let mut rows: Vec<Permission> = Vec::new();
    if existing > 0 {
        return rows;
    }
    proof {
        reveal_strlit("index");
        reveal_strlit("show");
        reveal_strlit("create");
        reveal_strlit("edit");
        reveal_strlit("delete");
        reveal_strlit("Index");
        reveal_strlit("Show");
        reveal_strlit("Create");
        reveal_strlit("Edit");
        reveal_strlit("Delete");
        reveal_strlit("user");
        reveal_strlit("role");
        reveal_strlit(":");
        reveal_strlit("user:index");
        reveal_strlit("role:index");
        reveal_strlit("user:show");
        reveal_strlit("role:show");
        reveal_strlit("user:create");
        reveal_strlit("role:create");
        reveal_strlit("user:edit");
        reveal_strlit("role:edit");
        reveal_strlit("user:delete");
        reveal_strlit("role:delete");
        assert(ascii_capitalized("index"@) =~= "Index"@);
        assert(ascii_capitalized("show"@) =~= "Show"@);
        assert(ascii_capitalized("create"@) =~= "Create"@);
        assert(ascii_capitalized("edit"@) =~= "Edit"@);
        assert(ascii_capitalized("delete"@) =~= "Delete"@);
        assert(crate::handlers::permission_name_of("user"@, "index"@) =~= "user:index"@);
        assert(crate::handlers::permission_name_of("role"@, "index"@) =~= "role:index"@);
        assert(crate::handlers::permission_name_of("user"@, "show"@) =~= "user:show"@);
        assert(crate::handlers::permission_name_of("role"@, "show"@) =~= "role:show"@);
        assert(crate::handlers::permission_name_of("user"@, "create"@) =~= "user:create"@);
        assert(crate::handlers::permission_name_of("role"@, "create"@) =~= "role:create"@);
        assert(crate::handlers::permission_name_of("user"@, "edit"@) =~= "user:edit"@);
        assert(crate::handlers::permission_name_of("role"@, "edit"@) =~= "role:edit"@);
        assert(crate::handlers::permission_name_of("user"@, "delete"@) =~= "user:delete"@);
        assert(crate::handlers::permission_name_of("role"@, "delete"@) =~= "role:delete"@);
    }
    add_row(&mut rows, None, "Main", "main", "category", None, 1, now);
    add_row(&mut rows, None, "Settings", "settings", "category", None, 2, now);
    add_row(&mut rows, Some(0), "Dashboard", "dashboard", "menu", Some("/dashboard"), 1, now);
    add_row(&mut rows, Some(1), "Administrator", "administrator", "category", None, 1, now);
    add_row(&mut rows, Some(3), "User", "user", "menu", Some("/settings/users"), 1, now);
    add_row(&mut rows, Some(3), "Role", "role", "menu", Some("/settings/roles"), 2, now);
    add_row(&mut rows, Some(3), "Permission", "permission", "menu", Some("/settings/permissions"), 3, now);
    add_actions(&mut rows, "index", 1, now);
    add_actions(&mut rows, "show", 2, now);
    add_actions(&mut rows, "create", 3, now);
    add_actions(&mut rows, "edit", 4, now);
    add_actions(&mut rows, "delete", 5, now);
    add_row(&mut rows, Some(6), "Index", "permission:index", "action", None, 1, now);
    rows
}


/// The permissions to seed now; none when permissions exist already.
pub fn permission_seed(existing: i64) -> (rows: Vec<Permission>)
    ensures
        existing > 0 ==> rows@.len() == 0,
        existing <= 0 ==> rows@.len() == seed_table().len(),
        existing <= 0 ==> forall|i: int|
            0 <= i < rows@.len() ==> is_uuid_text(#[trigger] rows@[i].id@) && seeded_as(
                rows@[i],
                seed_table()[i],
                rows@,
                rows@[0].created_at as int,
            ),
{
    let now = now_micros();
    let rows = permission_seed_at(existing, now);
    proof {
        if existing <= 0 {
            assert(seed_table().len() == 18);
            assert(is_uuid_text(rows@[0].id@));
            assert(seeded_as(rows@[0], seed_table()[0], rows@, now as int));
            assert(rows@[0].created_at == now);
        }
    }
    rows
}

/// Whether `u` is the seeded root account with id `id`, password hash
/// `hash`, created at `now`.
pub open spec fn root_account(u: NewUser, id: Seq<char>, hash: Seq<char>, now: int) -> bool {
    &&& u.id@ == id
    &&& u.name@ == "Root"@
    &&& opt_view(u.email) == Some("root@example.com"@)
    &&& opt_view(u.username) == Some("root"@)
    &&& opt_view(u.password) == Some(hash)
    &&& u.is_root
    &&& u.is_active
    &&& u.email_verified
    &&& u.role_id is None
    &&& u.created_at == now
    &&& u.updated_at == now
}

/// The root account with id `id` and password hash `hash` at `now`.
pub fn root_user_at(id: String, hash: String, now: i64) -> (u: NewUser)
    ensures
        root_account(u, id@, hash@, now as int),
{
    NewUser {
        id,
        name: owned("Root"),
        email: Some(owned("root@example.com")),
        username: Some(owned("root")),
        password: Some(hash),
        is_root: true,
        is_active: true,
        email_verified: true,
        role_id: None,
        created_at: now,
        updated_at: now,
    }
}

/// The root account to seed, none when an account with its address exists;
/// its password is `password`.
pub fn root_user_plan(existing: i64) -> (res: AppResult<Option<NewUser>>)
    ensures
        existing > 0 ==> res == Ok::<Option<NewUser>, crate::errors::AppError>(None),
        res matches Ok(Some(u)) ==> existing <= 0 && is_uuid_text(u.id@) && password_matches(
            "password"@,
            stored_hash(u.password),
        ) && exists|now: int| 0 <= now && #[trigger] root_account(u, u.id@, stored_hash(u.password), now),
        res matches Err(e) ==> e.is(crate::errors::ErrorKind::Internal, "Failed to hash password"@),
        existing <= 0 ==> (res is Err || res matches Ok(Some(_))),
{
    if existing > 0 {
        return Ok(None);
    }
    let id = new_uuid();
    let now = now_micros();
    let hash = hash_password("password")?;
    let u = root_user_at(id, hash, now);
    assert(root_account(u, u.id@, stored_hash(u.password), now as int));
    Ok(Some(u))
}


/// The seeded root account is `Root`, `root@example.com`, username `root`,
/// with the given password hash; it is root, active and verified, and has no
/// role.
pub proof fn lemma_root_account_fields(u: NewUser, id: Seq<char>, hash: Seq<char>, now: int)
    requires
        root_account(u, id, hash, now),
    ensures
        u.id@ == id,
        u.name@ == "Root"@,
        u.email matches Some(e) && e@ == "root@example.com"@,
        u.username matches Some(n) && n@ == "root"@,
        u.password matches Some(p) && p@ == hash,
        u.is_root && u.is_active && u.email_verified,
        u.role_id is None,
        u.created_at == now && u.updated_at == now,
{
}

} // verus!
