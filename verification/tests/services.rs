use starter_api::config::{Config, EnvVars};
use starter_api::errors::ErrorKind;
use starter_api::models::tokens::{PasswordResetToken, RefreshToken, SocialAccount};
use starter_api::models::user::User;
use starter_api::services::auth_service::{
    change_password_plan, facebook_profile_url, found_user, issue_tokens, issue_tokens_at,
    login_check, mark_refresh_used, oauth_configured, oauth_identity, oauth_link_at, oauth_next,
    one_time_check_at, refresh_check_at, register_check, register_plan, registration_at,
    reset_password_plan, token_pair_response, verify_email_plan, ChangePasswordRequest,
    OAuthIdentity, OAuthNext, Provider, ProviderProfile, RegisterRequest, oauth_link,
};
use starter_api::middleware::auth::authenticate;
use starter_api::utils::password::{check_password, hash_password};

fn config(verify: bool) -> Config {
    let v = EnvVars {
        app_url: Some("https://api.example.com".to_string()),
        app_port: None,
        db_driver: None,
        db_host: None,
        db_port: None,
        db_user: None,
        db_pass: None,
        db_name: None,
        jwt_secret: Some("test-secret".to_string()),
        jwt_access_expire: None,
        jwt_refresh_expire: None,
        email_verification_required: Some(if verify { "true" } else { "false" }.to_string()),
        mail_host: None,
        mail_port: None,
        mail_user: None,
        mail_pass: None,
        mail_from: None,
        mail_from_name: None,
        google_client_id: None,
        facebook_client_id: None,
        storage_path: None,
    };
    Config::from_env(&v)
}

fn user(password_hash: Option<String>) -> User {
    User {
        id: "u-1".to_string(),
        name: "Ann".to_string(),
        email: "ann@example.com".to_string(),
        username: Some("ann".to_string()),
        password: password_hash,
        photo: Some("p.png".to_string()),
        is_root: false,
        is_active: true,
        email_verified: true,
        role_id: None,
        created_at: 1,
        updated_at: 2,
        deleted_at: None,
    }
}

#[test]
fn password_hash_and_check() {
    let h = hash_password("hunter2").unwrap();
    assert_ne!(h, "hunter2");
    assert!(check_password("hunter2", &h));
    assert!(!check_password("hunter3", &h));
    assert!(!check_password("hunter2", "not a hash"));
}

#[test]
fn login_checks() {
    let cfg = config(true);
    let h = hash_password("pw").unwrap();
    let e = login_check(None, "pw", &cfg).err().unwrap();
    assert_eq!((e.kind, e.message.as_str()), (ErrorKind::Unauthorized, "Invalid email or password"));
    let e = login_check(Some(user(Some(h.clone()))), "wrong", &cfg).err().unwrap();
    assert_eq!(e.message, "Invalid email or password");
    let e = login_check(Some(user(None)), "pw", &cfg).err().unwrap();
    assert_eq!(e.message, "Invalid email or password");
    let mut inactive = user(Some(h.clone()));
    inactive.is_active = false;
    let e = login_check(Some(inactive), "pw", &cfg).err().unwrap();
    assert_eq!((e.kind, e.message.as_str()), (ErrorKind::Forbidden, "Account is inactive"));
    let mut unverified = user(Some(h.clone()));
    unverified.email_verified = false;
    let e = login_check(Some(unverified), "pw", &cfg).err().unwrap();
    assert_eq!((e.kind, e.message.as_str()), (ErrorKind::Forbidden, "Please verify your email first"));
    let mut unverified = user(Some(h.clone()));
    unverified.email_verified = false;
    assert!(login_check(Some(unverified), "pw", &config(false)).is_ok());
    let u = login_check(Some(user(Some(h))), "pw", &cfg).unwrap();
    assert_eq!(u.id, "u-1");
}

#[test]
fn registration_rules() {
    let e = register_check(1).err().unwrap();
    assert_eq!((e.kind, e.message.as_str()), (ErrorKind::Conflict, "Email already registered"));
    assert_eq!(e.status_code(), 409);
    assert!(register_check(0).is_ok());
    let req = RegisterRequest {
        name: "Bob".to_string(),
        email: "bob@example.com".to_string(),
        username: None,
        password: "pw".to_string(),
    };
    let r = registration_at(&req, &config(true), "id".to_string(), "h".to_string(), 0, "tid".to_string(), "tok".to_string()).unwrap();
    assert!(!r.user.email_verified);
    assert!(r.user.is_active && !r.user.is_root);
    let t = r.verification.unwrap();
    assert_eq!(t.user_id, "id");
    assert_eq!(t.expires_at, 24 * 3600 * 1_000_000);
    let r = registration_at(&req, &config(false), "id".to_string(), "h".to_string(), 0, "tid".to_string(), "tok".to_string()).unwrap();
    assert!(r.user.email_verified);
    assert!(r.verification.is_none());
    let r = register_plan(0, &req, &config(false)).unwrap();
    assert_eq!(r.user.id.len(), 36);
    assert!(check_password("pw", r.user.password.as_ref().unwrap()));
    assert!(register_plan(3, &req, &config(false)).is_err());
}

#[test]
fn registered_account_logs_in() {
    let req = RegisterRequest {
        name: "Bob".to_string(),
        email: "bob@example.com".to_string(),
        username: Some("bob".to_string()),
        password: "s3cret".to_string(),
    };
    let cfg = config(false);
    let r = register_plan(0, &req, &cfg).unwrap();
    let stored = User {
        id: r.user.id.clone(),
        name: r.user.name.clone(),
        email: req.email.clone(),
        username: r.user.username.clone(),
        password: r.user.password.clone(),
        photo: None,
        is_root: r.user.is_root,
        is_active: r.user.is_active,
        email_verified: r.user.email_verified,
        role_id: None,
        created_at: r.user.created_at,
        updated_at: r.user.updated_at,
        deleted_at: None,
    };
    assert!(login_check(Some(stored), "s3cret", &cfg).is_ok());
}

fn refresh_record(used: Option<i64>, revoked: Option<i64>, expires_at: i64) -> RefreshToken {
    RefreshToken {
        id: "rt".to_string(),
        user_id: "u-1".to_string(),
        token: "tok".to_string(),
        expires_at,
        used_at: used,
        revoked_at: revoked,
        created_at: 0,
    }
}

#[test]
fn refresh_token_checks() {
    let e = refresh_check_at(None, 5).err().unwrap();
    assert_eq!(e.message, "Invalid refresh token");
    assert!(refresh_check_at(Some(refresh_record(None, None, 10)), 5).is_ok());
    let e = refresh_check_at(Some(refresh_record(None, None, 10)), 10).err().unwrap();
    assert_eq!(e.message, "Refresh token expired or revoked");
    assert!(refresh_check_at(Some(refresh_record(Some(1), None, 10)), 5).is_err());
    assert!(refresh_check_at(Some(refresh_record(None, Some(1), 10)), 5).is_err());
    let used = mark_refresh_used(refresh_record(None, None, 10), 3);
    assert_eq!(used.used_at, Some(3));
    assert!(refresh_check_at(Some(used), 4).is_err());
}

#[test]
fn issued_pair() {
    let cfg = config(false);
    let u = user(None);
    let t = issue_tokens_at(&u, &cfg, 1_000_000, "rid".to_string()).unwrap();
    assert_eq!(t.expires_in, 900);
    assert_eq!(t.record.id, "rid");
    assert_eq!(t.record.user_id, "u-1");
    assert_eq!(t.record.token, t.refresh_token);
    assert_eq!(t.record.expires_at, 1_000_000 + 10080 * 60 * 1_000_000);
    assert!(t.record.is_valid_at(1_000_000));
    let t = issue_tokens(&u, &cfg).unwrap();
    let c = starter_api::utils::jwt::parse_access_token(&t.access_token, "test-secret").unwrap();
    assert_eq!(c.sub, "u-1");
    let p = token_pair_response(t, &u, None, &cfg.app_url);
    assert_eq!(p.token_type, "Bearer");
    assert_eq!(p.user.photo, Some("https://api.example.com/storage/photos/p.png".to_string()));
    let e = found_user(None).err().unwrap();
    assert_eq!((e.kind, e.message.as_str(), e.status_code()), (ErrorKind::NotFound, "User not found", 404));
}

fn one_time(used: Option<i64>, expires_at: i64) -> PasswordResetToken {
    PasswordResetToken {
        id: "t".to_string(),
        user_id: "u-1".to_string(),
        token: "x".to_string(),
        expires_at,
        used_at: used,
        created_at: 0,
    }
}

#[test]
fn one_time_tokens() {
    let e = one_time_check_at(None, 0, "missing", "invalid").err().unwrap();
    assert_eq!((e.kind, e.message.as_str()), (ErrorKind::BadRequest, "missing"));
    let e = one_time_check_at(Some(one_time(Some(1), 100)), 0, "missing", "invalid").err().unwrap();
    assert_eq!(e.message, "invalid");
    assert!(one_time_check_at(Some(one_time(None, 100)), 99, "m", "i").is_ok());
    assert!(one_time_check_at(Some(one_time(None, 100)), 100, "m", "i").is_err());
    let e = reset_password_plan(None, "new").err().unwrap();
    assert_eq!(e.message, "Invalid reset token");
    let e = reset_password_plan(Some(one_time(Some(1), i64::MAX)), "new").err().unwrap();
    assert_eq!(e.message, "Reset token expired or already used");
    let e = reset_password_plan(Some(one_time(None, 0)), "new").err().unwrap();
    assert_eq!(e.message, "Reset token expired or already used");
    let p = reset_password_plan(Some(one_time(None, i64::MAX)), "new").unwrap();
    assert_eq!(p.user_id, "u-1");
    assert!(check_password("new", &p.password_hash));
    assert_eq!(p.token.used_at, Some(p.now));
    let e = verify_email_plan(None).err().unwrap();
    assert_eq!(e.message, "Invalid verification token");
    let e = verify_email_plan(Some(one_time(Some(5), i64::MAX))).err().unwrap();
    assert_eq!(e.message, "Verification token expired or already used");
    let v = verify_email_plan(Some(one_time(None, i64::MAX))).unwrap();
    assert_eq!(v.user_id, "u-1");
    assert!(v.token.used_at.is_some());
}

#[test]
fn password_change() {
    let u = user(Some(hash_password("old").unwrap()));
    let e = change_password_plan(&u, &ChangePasswordRequest { current_password: "bad".to_string(), new_password: "n".to_string() }).err().unwrap();
    assert_eq!((e.kind, e.message.as_str()), (ErrorKind::BadRequest, "Current password incorrect"));
    let h = change_password_plan(&u, &ChangePasswordRequest { current_password: "old".to_string(), new_password: "n".to_string() }).unwrap();
    assert!(check_password("n", &h));
    let mut changed = u;
    changed.password = Some(h);
    assert!(login_check(Some(changed), "n", &config(false)).is_ok());
}

#[test]
fn social_login() {
    let e = oauth_configured(Provider::Google, "").err().unwrap();
    assert_eq!(e.message, "Google OAuth not configured");
    let e = oauth_configured(Provider::Facebook, "").err().unwrap();
    assert_eq!(e.message, "Facebook OAuth not configured");
    assert!(oauth_configured(Provider::Google, "client").is_ok());
    assert_eq!(facebook_profile_url("T0K"), "https://graph.facebook.com/me?fields=id,name,email&access_token=T0K");
    let e = oauth_identity(Provider::Google, ProviderProfile { id: None, email: None, name: None }).err().unwrap();
    assert_eq!((e.kind, e.message.as_str()), (ErrorKind::Unauthorized, "Invalid Google token"));
    let e = oauth_identity(Provider::Facebook, ProviderProfile { id: None, email: None, name: None }).err().unwrap();
    assert_eq!(e.message, "Invalid Facebook token");
    let i = oauth_identity(Provider::Google, ProviderProfile { id: Some("g1".to_string()), email: None, name: Some("G".to_string()) }).unwrap();
    assert_eq!((i.provider_id.as_str(), i.email.as_str(), i.name.as_str()), ("g1", "", "G"));
    let sa = SocialAccount { id: "s".to_string(), user_id: "u-9".to_string(), provider: "google".to_string(), provider_id: "g1".to_string(), created_at: 0, updated_at: 0 };
    assert_eq!(oauth_next(Some(sa), "a@b.c"), OAuthNext::Linked("u-9".to_string()));
    assert_eq!(oauth_next(None, "a@b.c"), OAuthNext::LookupByEmail);
    assert_eq!(oauth_next(None, ""), OAuthNext::CreateUser);
    let ident = OAuthIdentity { provider_id: "g1".to_string(), email: "".to_string(), name: "G".to_string() };
    let l = oauth_link_at(None, &ident, Provider::Google, "new".to_string(), "link".to_string(), 7);
    let n = l.new_user.unwrap();
    assert_eq!(n.email, None);
    assert!(n.email_verified && n.is_active && !n.is_root);
    assert_eq!(l.user_id, "new");
    assert_eq!(l.link.provider, "google");
    assert_eq!(l.link.user_id, "new");
    let l = oauth_link_at(Some(user(None)), &ident, Provider::Facebook, "new".to_string(), "link".to_string(), 7);
    assert!(l.new_user.is_none());
    assert_eq!(l.user_id, "u-1");
    assert_eq!(l.link.provider, "facebook");
}

#[test]
fn issued_access_token_authenticates_its_user() {
    let cfg = config(false);
    let mut u = user(None);
    u.is_root = true;
    let t = issue_tokens(&u, &cfg).unwrap();
    let header = format!("Bearer {}", t.access_token);
    let caller = authenticate(Some(&header), &cfg.jwt_secret).unwrap();
    assert_eq!(caller.user_id, "u-1");
    assert!(caller.is_root);
    assert!(authenticate(Some(&header), "another-secret").is_err());
}

#[test]
fn first_social_login_creates_account() {
    let ident = OAuthIdentity { provider_id: "g-1".to_string(), email: "".to_string(), name: "Gee".to_string() };
    let l = oauth_link(None, &ident, Provider::Google);
    let n = l.new_user.expect("a new account");
    assert_eq!(n.id, l.user_id);
    assert_eq!(n.id.len(), 36);
    assert_eq!(n.name, "Gee");
    assert_eq!(n.email, None);
    assert!(n.email_verified && n.is_active && !n.is_root);
    assert_eq!(l.link.provider, "google");
    assert_eq!(l.link.provider_id, "g-1");
    assert_eq!(l.link.user_id, l.user_id);
    assert_ne!(l.link.id, l.user_id);
    let l = oauth_link(Some(user(None)), &ident, Provider::Facebook);
    assert!(l.new_user.is_none());
    assert_eq!(l.user_id, "u-1");
    assert_eq!(l.link.provider, "facebook");
}

#[test]
fn stored_tokens_validity_now() {
    let far = 4_000_000_000_000_000;
    let r = RefreshToken {
        id: "r".to_string(),
        user_id: "u-1".to_string(),
        token: "x".to_string(),
        expires_at: far,
        used_at: None,
        revoked_at: None,
        created_at: 0,
    };
    assert!(r.is_valid());
    assert!(!RefreshToken { revoked_at: Some(1), ..r.clone() }.is_valid());
    assert!(!RefreshToken { used_at: Some(1), ..r.clone() }.is_valid());
    assert!(!RefreshToken { expires_at: 1, ..r }.is_valid());
    assert!(one_time(None, far).is_valid());
    assert!(!one_time(Some(2), far).is_valid());
    assert!(!one_time(None, 1).is_valid());
}
