use starter_api::errors::{AppError, ErrorKind};
use starter_api::handlers::roles::ListQuery;
use starter_api::handlers::{
    access_step, access_verdict, page_offset, page_offset_fits, permission_name, search_pattern,
    AccessStep,
};
use starter_api::middleware::auth::AuthUser;
use starter_api::response::{created, error_reply, no_data, ok, ok_paged, PageMeta};
use starter_api::seeder::{capitalize, permission_seed, permission_seed_at, root_user_plan};
use starter_api::services::permission_service::permission_granted;
use starter_api::utils::password::check_password;

#[test]
fn root_bypasses_permission_checks() {
    let root = AuthUser { user_id: "r".to_string(), is_root: true };
    let other = AuthUser { user_id: "o".to_string(), is_root: false };
    assert_eq!(access_step(&root), AccessStep::Granted);
    assert_eq!(access_step(&other), AccessStep::NeedsLookup);
    assert!(access_verdict(true).is_ok());
    let e = access_verdict(false).err().unwrap();
    assert_eq!((e.kind, e.message.as_str(), e.status_code()), (ErrorKind::Forbidden, "Permission denied", 403));
    assert!(permission_granted(Some(2)));
    assert!(!permission_granted(Some(0)));
    assert!(!permission_granted(None));
}

#[test]
fn paging() {
    let q = ListQuery { search: None, page: None, per_page: None };
    assert_eq!((q.page(), q.per_page()), (1, 10));
    let q = ListQuery { search: Some("x".to_string()), page: Some(3), per_page: Some(25) };
    assert_eq!(page_offset(q.page(), q.per_page()), 50);
    assert_eq!(page_offset(0, 10), -10);
    assert!(page_offset_fits(3, 25));
    assert!(!page_offset_fits(i64::MIN, 1));
    assert!(!page_offset_fits(i64::MAX, 3));
    assert_eq!(search_pattern(Some("ann")), "%ann%");
    assert_eq!(search_pattern(None), "%%");
}

#[test]
fn seeded_permissions_cover_handler_checks() {
    let rows = permission_seed_at(0, 5);
    assert_eq!(rows.len(), 18);
    for resource in ["user", "role"] {
        for action in ["index", "show", "create", "edit", "delete"] {
            let name = permission_name(resource, action);
            assert!(rows.iter().any(|p| p.name == name), "{}", name);
        }
    }
    assert!(rows.iter().any(|p| p.name == permission_name("permission", "index")));
    let user_menu = rows.iter().find(|p| p.name == "user").unwrap();
    let user_index = rows.iter().find(|p| p.name == "user:index").unwrap();
    assert_eq!(user_index.parent_id.as_ref(), Some(&user_menu.id));
    assert_eq!(user_index.label, "Index");
    assert_eq!(user_index.perm_type, "action");
    assert_eq!(rows[0].name, "main");
    assert!(rows[0].parent_id.is_none());
    assert_eq!(rows[6].route, Some("/settings/permissions".to_string()));
    assert!(permission_seed_at(1, 5).is_empty());
    assert_eq!(permission_seed(0).len(), 18);
    assert!(permission_seed(2).is_empty());
}

#[test]
fn capitalize_words() {
    assert_eq!(capitalize("index"), "Index");
    assert_eq!(capitalize(""), "");
    assert_eq!(capitalize("éa"), "Éa");
    assert_eq!(capitalize("ßx"), "SSx");
    assert_eq!(capitalize("rOLE"), "ROLE");
    assert_eq!(capitalize("1st"), "1st");
    assert_eq!(capitalize("Done"), "Done");
}

#[test]
fn root_account_seed() {
    let u = root_user_plan(0).unwrap().unwrap();
    assert_eq!(u.email, Some("root@example.com".to_string()));
    assert_eq!(u.username, Some("root".to_string()));
    assert!(u.is_root && u.is_active && u.email_verified);
    assert!(check_password("password", u.password.as_ref().unwrap()));
    assert!(root_user_plan(1).unwrap().is_none());
}

#[test]
fn replies() {
    let r = ok("Done", 5u8);
    assert_eq!((r.status, r.body.success, r.body.message.as_str(), r.body.data), (200, true, "Done", Some(5)));
    let r = created("Made", 1u8);
    assert_eq!(r.status, 201);
    let r = no_data::<u8>("Nothing");
    assert!(r.body.data.is_none() && r.body.success);
    let r = ok_paged("Page", 1u8, PageMeta { page: 1, per_page: 10, total: 3, total_page: 1 });
    assert_eq!(r.body.meta.unwrap().total, 3);
    let e = AppError::new(ErrorKind::Conflict, "Taken");
    let r = error_reply::<u8>(&e);
    assert_eq!((r.status, r.body.success, r.body.message.as_str()), (409, false, "Taken"));
    assert_eq!(AppError::new(ErrorKind::BadRequest, "x").status_code(), 400);
    assert_eq!(AppError::new(ErrorKind::Internal, "x").status_code(), 500);
}
