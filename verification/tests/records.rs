use starter_api::config::{Config, EnvVars};
use starter_api::errors::ErrorKind;
use starter_api::models::permission::{Permission, PermissionNode};
use starter_api::models::role::Role;
use starter_api::models::user::User;
use starter_api::services::permission_service::{build_tree, ids_distinct, serialize_all};
use starter_api::services::role_service::{
    delete_check, found_role, merge_role_update, new_role_at, permission_links, role_with_permissions,
    CreateRoleRequest, UpdateRoleRequest,
};
use starter_api::services::user_service::{
    create_check, create_plan, merge_profile, merge_user_update, new_user_at, role_summary,
    update_plan, user_resource, CreateUserRequest, UpdateProfileRequest, UpdateUserRequest,
};
use starter_api::utils::mail::{mail_enabled, password_reset_email, sender, verification_email};
use starter_api::utils::password::check_password;
use starter_api::utils::upload::{
    build_photo_url, check_photo_size, field_step, is_photo_field, missing_photo, photo_extension,
    photo_filename, photo_filename_with, FieldStep, MAX_SIZE,
};

fn perm(id: &str, parent: Option<&str>, name: &str) -> Permission {
    Permission {
        id: id.to_string(),
        parent_id: parent.map(|p| p.to_string()),
        name: name.to_string(),
        label: name.to_uppercase(),
        perm_type: "menu".to_string(),
        route: None,
        sort_order: 1,
        created_at: 0,
        updated_at: 0,
        deleted_at: None,
    }
}

fn names(nodes: &Vec<PermissionNode>) -> Vec<String> {
    nodes.iter().map(|n| n.permission.name.clone()).collect()
}

#[test]
fn permission_tree() {
    let all = vec![
        perm("a", None, "main"),
        perm("b", Some("a"), "dash"),
        perm("c", None, "settings"),
        perm("d", Some("c"), "admin"),
        perm("e", Some("d"), "user"),
        perm("f", Some("a"), "reports"),
        perm("g", Some("zz"), "orphan"),
        perm("h", Some("i"), "loop1"),
        perm("i", Some("h"), "loop2"),
    ];
    let tree = build_tree(&all);
    assert_eq!(names(&tree), vec!["main", "settings"]);
    assert_eq!(names(&tree[0].children), vec!["dash", "reports"]);
    assert!(tree[0].children[0].children.is_empty());
    assert_eq!(names(&tree[1].children), vec!["admin"]);
    assert_eq!(names(&tree[1].children[0].children), vec!["user"]);
    assert_eq!(tree[1].children[0].children[0].permission.label, "USER");
    assert!(build_tree(&Vec::new()).is_empty());
    let flat = serialize_all(&all);
    assert_eq!(flat.len(), 9);
    assert_eq!(flat[6].parent_id, Some("zz".to_string()));
}

#[test]
fn permission_ids_distinct() {
    let all = vec![perm("a", None, "main"), perm("b", Some("a"), "dash"), perm("c", None, "x")];
    assert!(ids_distinct(&all));
    assert!(ids_distinct(&Vec::new()));
    let dup = vec![perm("a", None, "main"), perm("b", Some("a"), "dash"), perm("a", None, "again")];
    assert!(!ids_distinct(&dup));
}

fn user() -> User {
    User {
        id: "u".to_string(),
        name: "Ann".to_string(),
        email: "ann@x.io".to_string(),
        username: Some("ann".to_string()),
        password: Some("old-hash".to_string()),
        photo: None,
        is_root: false,
        is_active: true,
        email_verified: false,
        role_id: Some("r1".to_string()),
        created_at: 10,
        updated_at: 20,
        deleted_at: None,
    }
}

fn role() -> Role {
    Role { id: "r1".to_string(), name: "Editor".to_string(), description: Some("Edits".to_string()), created_at: 1, updated_at: 2, deleted_at: None }
}

#[test]
fn user_resources() {
    let r = user_resource(&user(), Some(role()), "http://h");
    assert_eq!(r.photo, None);
    let shown = r.role.unwrap();
    assert_eq!(shown.name, "Editor");
    assert!(shown.permissions.is_none());
    let mut u = user();
    u.photo = Some("x.jpg".to_string());
    let r = user_resource(&u, None, "http://h");
    assert_eq!(r.photo, Some("http://h/storage/photos/x.jpg".to_string()));
    assert!(r.role.is_none());
    assert!(role_summary(None).is_none());
}

#[test]
fn user_create_and_update() {
    let e = create_check(2).err().unwrap();
    assert_eq!((e.kind, e.message.as_str()), (ErrorKind::Conflict, "Email already registered"));
    let req = CreateUserRequest { name: "B".to_string(), email: "b@x.io".to_string(), username: None, password: "pw".to_string(), role_id: Some("r1".to_string()), is_active: None };
    let n = new_user_at(&req, "id".to_string(), "h".to_string(), 3);
    assert!(n.is_active && !n.is_root && !n.email_verified);
    assert_eq!(n.role_id, Some("r1".to_string()));
    let n = create_plan(0, &req).unwrap();
    assert!(check_password("pw", n.password.as_ref().unwrap()));
    let req2 = CreateUserRequest { is_active: Some(false), ..req };
    assert!(!new_user_at(&req2, "i".to_string(), "h".to_string(), 3).is_active);

    let none = UpdateUserRequest { name: None, email: None, username: None, password: None, role_id: None, is_active: None };
    let w = merge_user_update(&user(), none, "old-hash".to_string(), 99);
    assert_eq!((w.name.as_str(), w.email.as_str()), ("Ann", "ann@x.io"));
    assert_eq!(w.username, Some("ann".to_string()));
    assert_eq!(w.role_id, Some("r1".to_string()));
    assert!(w.is_active);
    assert_eq!(w.updated_at, 99);
    let some = UpdateUserRequest { name: Some("Zed".to_string()), email: None, username: Some("z".to_string()), password: None, role_id: Some("r2".to_string()), is_active: Some(false) };
    let w = merge_user_update(&user(), some, "p".to_string(), 5);
    assert_eq!(w.name, "Zed");
    assert_eq!(w.email, "ann@x.io");
    assert_eq!(w.role_id, Some("r2".to_string()));
    assert!(!w.is_active);
    let keep = UpdateUserRequest { name: None, email: None, username: None, password: None, role_id: None, is_active: None };
    assert_eq!(update_plan(&user(), keep).unwrap().password, "old-hash");
    let mut no_pw = user();
    no_pw.password = None;
    let keep = UpdateUserRequest { name: None, email: None, username: None, password: None, role_id: None, is_active: None };
    assert_eq!(update_plan(&no_pw, keep).unwrap().password, "");
    let change = UpdateUserRequest { name: None, email: None, username: None, password: Some("fresh".to_string()), role_id: None, is_active: None };
    assert!(check_password("fresh", &update_plan(&user(), change).unwrap().password));
    let p = merge_profile(&user(), UpdateProfileRequest { name: None, username: Some("annie".to_string()) }, 4);
    assert_eq!((p.name.as_str(), p.username.as_deref()), ("Ann", Some("annie")));
}

#[test]
fn role_rules() {
    let e = found_role(None).err().unwrap();
    assert_eq!((e.kind, e.message.as_str()), (ErrorKind::NotFound, "Role not found"));
    let e = delete_check(1).err().unwrap();
    assert_eq!((e.kind, e.message.as_str()), (ErrorKind::Conflict, "Role is assigned to users and cannot be deleted"));
    assert!(delete_check(0).is_ok());
    let n = new_role_at(&CreateRoleRequest { name: "R".to_string(), description: None, permission_ids: None }, "rid".to_string(), 8);
    assert_eq!((n.id.as_str(), n.name.as_str(), n.created_at), ("rid", "R", 8));
    let w = merge_role_update(&role(), &UpdateRoleRequest { name: None, description: Some("New".to_string()), permission_ids: None }, 9);
    assert_eq!((w.name.as_str(), w.description.as_deref()), ("Editor", Some("New")));
    let links = permission_links("r1", &vec!["p1".to_string(), "p2".to_string()]);
    assert_eq!(links, vec![("r1".to_string(), "p1".to_string()), ("r1".to_string(), "p2".to_string())]);
    let res = role_with_permissions(&role(), &vec![perm("p1", None, "x")]);
    assert_eq!(res.permissions.unwrap()[0].name, "x");
}

#[test]
fn photo_uploads() {
    assert_eq!(photo_extension("image/jpeg").unwrap(), "jpg");
    assert_eq!(photo_extension("image/png").unwrap(), "png");
    assert_eq!(photo_extension("image/webp").unwrap(), "webp");
    let e = photo_extension("image/gif").err().unwrap();
    assert_eq!((e.kind, e.message.as_str()), (ErrorKind::BadRequest, "Only JPEG, PNG, WebP images are allowed"));
    assert!(check_photo_size(MAX_SIZE).is_ok());
    assert_eq!(check_photo_size(MAX_SIZE + 1).err().unwrap().message, "File size must not exceed 2MB");
    assert_eq!(MAX_SIZE, 2 * 1024 * 1024);
    assert_eq!(missing_photo().message, "No photo field in request");
    assert!(is_photo_field("photo") && !is_photo_field("avatar"));
    assert_eq!(photo_filename_with("abc", "png"), "abc.png");
    let f = photo_filename("webp");
    assert_eq!(f.len(), 36 + 5);
    assert!(f.ends_with(".webp"));
    assert_eq!(build_photo_url("https://a.b", "f.jpg"), "https://a.b/storage/photos/f.jpg");
}

#[test]
fn photo_form_fields() {
    assert!(matches!(field_step("avatar", "image/png"), FieldStep::Skip));
    assert!(matches!(field_step("photo", "image/png"), FieldStep::Read(ref e) if e == "png"));
    match field_step("photo", "text/plain") {
        FieldStep::Refuse(e) => assert_eq!(e.message, "Only JPEG, PNG, WebP images are allowed"),
        _ => panic!("a text field is no photo"),
    }
}

#[test]
fn account_emails() {
    let mut v = EnvVars {
        app_url: Some("https://api.x".to_string()),
        app_port: None, db_driver: None, db_host: None, db_port: None, db_user: None, db_pass: None,
        db_name: None, jwt_secret: None, jwt_access_expire: None, jwt_refresh_expire: None,
        email_verification_required: None, mail_host: None, mail_port: None, mail_user: None,
        mail_pass: None, mail_from: Some("a@x".to_string()), mail_from_name: Some("X".to_string()),
        google_client_id: None, facebook_client_id: None, storage_path: None,
    };
    let cfg = Config::from_env(&v);
    assert!(!mail_enabled(&cfg));
    assert_eq!(sender(&cfg), "X <a@x>");
    let m = verification_email(&cfg, "Ann", "T1");
    assert_eq!(m.subject, "Verify Your Email");
    assert_eq!(m.body, "Hi Ann,\n\nPlease verify your email by clicking:\nhttps://api.x/api/v1/auth/verify-email?token=T1\n\nThis link expires in 24 hours.");
    let m = password_reset_email(&cfg, "Ann", "T2");
    assert_eq!(m.subject, "Reset Your Password");
    assert_eq!(m.body, "Hi Ann,\n\nReset your password by clicking:\nhttps://api.x/api/v1/auth/reset-password?token=T2\n\nThis link expires in 1 hour.");
    v.mail_host = Some("smtp.x".to_string());
    assert!(mail_enabled(&Config::from_env(&v)));
}
