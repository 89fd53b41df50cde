//! Accounts: registration, login, token refresh, password reset, e-mail
//! verification, password change and social login. Each operation is split
//! into the decisions taken here and the reads and writes of the program
//! around the library, which hands the stored records in and writes back
//! the records returned.
use vstd::prelude::*;
use vstd::string::StringSliceAdditionalSpecFns;
use crate::clock::{add_minutes, in_range, now_micros, plus_minutes};
use crate::config::Config;
use crate::errors::{AppError, AppResult, ErrorKind};
use crate::models::role::RoleResource;
use crate::models::tokens::{
    one_time_usable, refresh_usable, PasswordResetToken, RefreshToken, SocialAccount,
};
use crate::models::user::{clone_opt, opt_view, serialize_user, shows_user, NewUser, User, UserResource};
use crate::text::{chars_of, owned, push_str, string_from_chars};
use crate::utils::ids::{is_uuid_text, new_uuid};
use crate::utils::jwt::{
    access_claims_at, access_claims_json, access_token_at, hs256_token, jwt_claims_text,
    lemma_access_claims_json_injective, lemma_refresh_claims_not_access, padded_secret, AccessClaimsView,
    refresh_claims_json, refresh_token_at,
};
use crate::utils::password::{
    bcrypt_verifies, check_account_password, hash_password, password_matches, stored_hash,
};
use crate::clock::seconds_of;

verus! {

/// Registration form.
pub struct RegisterRequest {
    pub name: String,
    pub email: String,
    pub username: Option<String>,
    pub password: String,
}

/// Login form.
pub struct LoginRequest {
    pub email: String,
    pub password: String,
}

/// A refresh token to exchange for a new pair.
pub struct RefreshTokenRequest {
    pub refresh_token: String,
}

/// A refresh token to revoke.
pub struct RevokeTokenRequest {
    pub refresh_token: String,
}

/// Address of an account whose password was forgotten.
pub struct ForgotPasswordRequest {
    pub email: String,
}

/// A reset token and the new password.
pub struct ResetPasswordRequest {
    pub token: String,
    pub new_password: String,
}

/// The current and the new password of the caller.
pub struct ChangePasswordRequest {
    pub current_password: String,
    pub new_password: String,
}

/// An access token of a social login provider.
pub struct OAuthRequest {
    pub token: String,
}

// ---------------------------------------------------------------------
// Token pairs
// ---------------------------------------------------------------------

/// A freshly signed pair of tokens with the refresh token's record.
pub struct IssuedTokens {
    pub access_token: String,
    pub refresh_token: String,
    pub expires_in: i64,
    pub record: RefreshToken,
}

/// The answer to a successful login: both tokens, the access token's
/// lifetime in seconds and the user.
pub struct TokenPair {
    pub access_token: String,
    pub refresh_token: String,
    pub token_type: String,
    pub expires_in: i64,
    pub user: UserResource,
}

/// Whether `t` is the pair issued to `user` at `now` under `cfg`, with
/// `record_id` naming the refresh token's record.
pub open spec fn issued_at(t: IssuedTokens, user: User, cfg: Config, now: int, record_id: Seq<char>) -> bool {
    let key = padded_secret(vstd::utf8::encode_utf8(cfg.jwt_secret@));
    &&& access_claims_at(user.id@, user.is_root, now, cfg.jwt_access_expire as int) matches Some(
        c,
    )
    &&& hs256_token(access_claims_json(c), key) == Some(t.access_token@)
    &&& jwt_claims_text(t.access_token@) == Some(access_claims_json(c))
    &&& plus_minutes(now, cfg.jwt_refresh_expire as int) matches Some(exp)
    &&& hs256_token(
        refresh_claims_json(user.id@, seconds_of(exp) as i64, seconds_of(now) as i64),
        key,
    ) == Some(t.refresh_token@)
    &&& jwt_claims_text(t.refresh_token@) == Some(
        refresh_claims_json(user.id@, seconds_of(exp) as i64, seconds_of(now) as i64),
    )
    &&& t.expires_in == cfg.jwt_access_expire * 60
    &&& t.record.id@ == record_id
    &&& t.record.user_id@ == user.id@
    &&& t.record.token@ == t.refresh_token@
    &&& t.record.expires_at == exp
    &&& t.record.used_at is None
    &&& t.record.revoked_at is None
    &&& t.record.created_at == now
}

/// Whether a pair can be issued to `user` at `now` under `cfg`: both expiry
/// instants are representable and both tokens can be signed.
pub open spec fn can_issue(user: User, cfg: Config, now: int) -> bool {
    let key = padded_secret(vstd::utf8::encode_utf8(cfg.jwt_secret@));
    &&& access_claims_at(user.id@, user.is_root, now, cfg.jwt_access_expire as int) matches Some(
        c,
    )
    &&& hs256_token(access_claims_json(c), key) is Some
    &&& plus_minutes(now, cfg.jwt_refresh_expire as int) matches Some(exp)
    &&& hs256_token(
        refresh_claims_json(user.id@, seconds_of(exp) as i64, seconds_of(now) as i64),
        key,
    ) is Some
}

/// Signs the token pair for `user` at instant `now`; the refresh token's
/// record gets the id `record_id`.
pub fn issue_tokens_at(user: &User, cfg: &Config, now: i64, record_id: String) -> (res: AppResult<
    IssuedTokens,
>)
    requires
        in_range(now as int),
    ensures
        res is Ok <==> can_issue(*user, *cfg, now as int),
        res matches Ok(t) ==> issued_at(t, *user, *cfg, now as int, record_id@),
        res matches Err(e) ==> e.kind == ErrorKind::Internal,
{
    let access = access_token_at(
        user.id.as_str(),
        user.is_root,
        cfg.jwt_secret.as_str(),
        cfg.jwt_access_expire,
        now,
    )?;
    let refresh = refresh_token_at(user.id.as_str(), cfg.jwt_secret.as_str(), cfg.jwt_refresh_expire, now)?;
    let expires_at = match add_minutes(now, cfg.jwt_refresh_expire) {
        Some(t) => t,
        None => {
            return Err(AppError::new(ErrorKind::Internal, "Token expiry out of range"));
        },
    };
    let expires_in = cfg.jwt_access_expire * 60;
    let record = RefreshToken {
        id: record_id,
        user_id: user.id.clone(),
        token: refresh.clone(),
        expires_at,
        used_at: None,
        revoked_at: None,
        created_at: now,
    };
    Ok(IssuedTokens { access_token: access, refresh_token: refresh, expires_in, record })
}

/// Signs a token pair for `user` now, with a fresh record id.
pub fn issue_tokens(user: &User, cfg: &Config) -> (res: AppResult<IssuedTokens>)
    ensures
        res matches Ok(t) ==> exists|now: int| 0 <= now && #[trigger] issued_at(t, *user, *cfg, now, t.record.id@),
        res matches Ok(t) ==> is_uuid_text(t.record.id@),
        res matches Err(e) ==> e.kind == ErrorKind::Internal,
        res is Err ==> exists|now: int|
            0 <= now && in_range(now) && !#[trigger] can_issue(*user, *cfg, now),
{
    let now = now_micros();
    let id = new_uuid();
    let ghost id_view = id@;
    let r = issue_tokens_at(user, cfg, now, id);
    proof {
        if r is Ok {
            let t = r->Ok_0;
            assert(issued_at(t, *user, *cfg, now as int, t.record.id@));
        } else {
            assert(!can_issue(*user, *cfg, now as int));
        }
    }
    r
}

/// The login answer for `user` holding `issued`, with its role and the photo
/// URL under `app_url`.
pub fn token_pair_response(issued: IssuedTokens, user: &User, role: Option<RoleResource>, app_url: &str) -> (p:
    TokenPair)
    ensures
        p.access_token@ == issued.access_token@,
        p.refresh_token@ == issued.refresh_token@,
        p.token_type@ == "Bearer"@,
        p.expires_in == issued.expires_in,
        shows_user(p.user, *user, role, app_url@),
{
    TokenPair {
        access_token: issued.access_token,
        refresh_token: issued.refresh_token,
        token_type: owned("Bearer"),
        expires_in: issued.expires_in,
        user: serialize_user(user, role, app_url),
    }
}

// ---------------------------------------------------------------------
// Lookups
// ---------------------------------------------------------------------

/// The user found by a lookup, or `User not found`.
pub fn found_user(u: Option<User>) -> (res: AppResult<User>)
    ensures
        match u {
            Some(x) => res == Ok::<User, AppError>(x),
            None => res matches Err(e) && e.is(ErrorKind::NotFound, "User not found"@),
        },
{
    match u {
        Some(x) => Ok(x),
        None => Err(AppError::new(ErrorKind::NotFound, "User not found")),
    }
}

// ---------------------------------------------------------------------
// Registration
// ---------------------------------------------------------------------

/// Registration is refused while an active account uses the address.
pub fn register_check(existing: i64) -> (res: AppResult<()>)
    ensures
        existing > 0 ==> (res matches Err(e) && e.is(ErrorKind::Conflict, "Email already registered"@)),
        existing <= 0 ==> res is Ok,
{
    if existing > 0 {
        Err(AppError::new(ErrorKind::Conflict, "Email already registered"))
    } else {
        Ok(())
    }
}

/// What registration stores: the account, and the verification token when
/// e-mail verification is required.
pub struct Registration {
    pub user: NewUser,
    pub verification: Option<PasswordResetToken>,
}

/// Whether `u` is the account registered by `req` with id `id` and password
/// hash `hash` at `now`.
pub open spec fn registered_user(u: NewUser, req: RegisterRequest, cfg: Config, id: Seq<char>, hash: Seq<char>, now: int) -> bool {
    &&& u.id@ == id
    &&& u.name@ == req.name@
    &&& opt_view(u.email) == Some(req.email@)
    &&& opt_view(u.username) == opt_view(req.username)
    &&& opt_view(u.password) == Some(hash)
    &&& !u.is_root
    &&& u.is_active
    &&& u.email_verified == !cfg.email_verification_required
    &&& u.role_id is None
    &&& u.created_at == now
    &&& u.updated_at == now
}

/// The registration of `req` at instant `now` with account id `id`, stored
/// password hash `hash` and, when verification is required, a token
/// `token` with record id `token_id` valid for 24 hours.
pub fn registration_at(
    req: &RegisterRequest,
    cfg: &Config,
    id: String,
    hash: String,
    now: i64,
    token_id: String,
    token: String,
) -> (res: AppResult<Registration>)
    requires
        in_range(now as int),
    ensures
        cfg.email_verification_required && plus_minutes(now as int, 1440int) is None ==> (res matches Err(
            e,
        ) && e.is(ErrorKind::Internal, "Token expiry out of range"@)),
        !(cfg.email_verification_required && plus_minutes(now as int, 1440int) is None) ==> res is Ok,
        res matches Ok(r) ==> {
            &&& registered_user(r.user, *req, *cfg, id@, hash@, now as int)
            &&& r.verification is Some <==> cfg.email_verification_required
            &&& r.verification matches Some(t) ==> {
                &&& t.id@ == token_id@
                &&& t.user_id@ == id@
                &&& t.token@ == token@
                &&& Some(t.expires_at as int) == plus_minutes(now as int, 1440int)
                &&& t.used_at is None
                &&& t.created_at == now
            }
        },
{
    let verification = if cfg.email_verification_required {
        let expires_at = match crate::clock::add_hours(now, 24) {
            Some(t) => t,
            None => {
                return Err(AppError::new(ErrorKind::Internal, "Token expiry out of range"));
            },
        };
        Some(
            PasswordResetToken {
                id: token_id,
                user_id: id.clone(),
                token,
                expires_at,
                used_at: None,
                created_at: now,
            },
        )
    } else {
        None
    };
    let user = NewUser {
        id,
        name: req.name.clone(),
        email: Some(req.email.clone()),
        username: clone_opt(&req.username),
        password: Some(hash),
        is_root: false,
        is_active: true,
        email_verified: !cfg.email_verification_required,
        role_id: None,
        created_at: now,
        updated_at: now,
    };
    Ok(Registration { user, verification })
}

/// The registration of `req`, given how many active accounts already use
/// its address: refused when there is one; otherwise the password is hashed
/// and fresh ids and the current time are drawn.
pub fn register_plan(existing: i64, req: &RegisterRequest, cfg: &Config) -> (res: AppResult<
    Registration,
>)
    ensures
        existing > 0 ==> (res matches Err(e) && e.is(ErrorKind::Conflict, "Email already registered"@)),
        res matches Err(e) ==> e.is(ErrorKind::Conflict, "Email already registered"@) || e.kind
            == ErrorKind::Internal,
        existing <= 0 ==> (res matches Err(e) ==> e.is(ErrorKind::Internal, "Failed to hash password"@)
            || (e.is(ErrorKind::Internal, "Token expiry out of range"@)
            && cfg.email_verification_required)),
        res matches Ok(r) ==> {
            &&& existing <= 0
            &&& r.user.password matches Some(h) && password_matches(req.password@, h@)
            &&& is_uuid_text(r.user.id@)
            &&& exists|now: int|
                0 <= now && #[trigger] registered_user(
                    r.user,
                    *req,
                    *cfg,
                    r.user.id@,
                    stored_hash(r.user.password),
                    now,
                )
            &&& r.verification is Some <==> cfg.email_verification_required
            &&& r.verification matches Some(t) ==> t.user_id@ == r.user.id@ && t.used_at is None
                && Some(t.expires_at as int) == plus_minutes(r.user.created_at as int, 1440int)
        },
{
    register_check(existing)?;
    let hash = hash_password(req.password.as_str())?;
    let ghost hv = hash@;
    let id = new_uuid();
    let now = now_micros();
    let token_id = new_uuid();
    let token = new_uuid();
    let r = registration_at(req, cfg, id, hash, now, token_id, token);
    proof {
        if r is Ok {
            let reg = r->Ok_0;
            assert(registered_user(reg.user, *req, *cfg, reg.user.id@, stored_hash(reg.user.password), now as int));
        }
    }
    r
}

// ---------------------------------------------------------------------
// Login
// ---------------------------------------------------------------------

/// The outcome of a login attempt with `password` for the account found by
/// address (`None`: no active account).
pub open spec fn login_outcome(user: Option<User>, password: Seq<char>, cfg: Config) -> Result<
    (),
    (ErrorKind, Seq<char>),
> {
    match user {
        None => Err((ErrorKind::Unauthorized, "Invalid email or password"@)),
        Some(u) => if !password_matches(password, stored_hash(u.password)) {
            Err((ErrorKind::Unauthorized, "Invalid email or password"@))
        } else if !u.is_active {
            Err((ErrorKind::Forbidden, "Account is inactive"@))
        } else if cfg.email_verification_required && !u.email_verified {
            Err((ErrorKind::Forbidden, "Please verify your email first"@))
        } else {
            Ok(())
        },
    }
}

/// Checks a login attempt against the account found by address: the
/// password must match, the account must be active and, when required, its
/// address verified.
pub fn login_check(user: Option<User>, password: &str, cfg: &Config) -> (res: AppResult<User>)
    ensures
        match login_outcome(user, password@, *cfg) {
            Ok(()) => user matches Some(u) && res == Ok::<User, AppError>(u),
            Err((k, m)) => res matches Err(e) && e.is(k, m),
        },
{
    match user {
        None => Err(AppError::new(ErrorKind::Unauthorized, "Invalid email or password")),
        Some(u) => {
            if !check_account_password(password, &u.password) {
                return Err(AppError::new(ErrorKind::Unauthorized, "Invalid email or password"));
            }
            if !u.is_active {
                return Err(AppError::new(ErrorKind::Forbidden, "Account is inactive"));
            }
            if cfg.email_verification_required && !u.email_verified {
                return Err(AppError::new(ErrorKind::Forbidden, "Please verify your email first"));
            }
            Ok(u)
        },
    }
}

// ---------------------------------------------------------------------
// Refresh
// ---------------------------------------------------------------------

/// What presenting a refresh token at `now` is answered, given the record
/// found for it (`None`: unknown token): accepted while it is usable.
pub open spec fn refresh_outcome(rt: Option<RefreshToken>, now: int) -> Result<(), (ErrorKind, Seq<char>)> {
    match rt {
        None => Err((ErrorKind::Unauthorized, "Invalid refresh token"@)),
        Some(t) => if refresh_usable(t, now) {
            Ok(())
        } else {
            Err((ErrorKind::Unauthorized, "Refresh token expired or revoked"@))
        },
    }
}

/// The outcome of presenting a refresh token at `now`, given the record
/// found for it (`None`: unknown token).
pub fn refresh_check_at(rt: Option<RefreshToken>, now: i64) -> (res: AppResult<RefreshToken>)
    ensures
        match refresh_outcome(rt, now as int) {
            Ok(()) => rt matches Some(t) && res == Ok::<RefreshToken, AppError>(t),
            Err((k, m)) => res matches Err(e) && e.is(k, m),
        },
{
    match rt {
        None => Err(AppError::new(ErrorKind::Unauthorized, "Invalid refresh token")),
        Some(t) => {
            if t.is_valid_at(now) {
                Ok(t)
            } else {
                Err(AppError::new(ErrorKind::Unauthorized, "Refresh token expired or revoked"))
            }
        },
    }
}

/// The record of a refresh token once it has been exchanged at `now`.
pub fn mark_refresh_used(rt: RefreshToken, now: i64) -> (r: RefreshToken)
    ensures
        r.used_at == Some(now),
        r.id == rt.id,
        r.user_id == rt.user_id,
        r.token == rt.token,
        r.expires_at == rt.expires_at,
        r.revoked_at == rt.revoked_at,
        r.created_at == rt.created_at,
{
    RefreshToken { used_at: Some(now), ..rt }
}

/// A refresh token exchanged once is refused ever after; so is a revoked one.
/// Presenting it again is answered `Refresh token expired or revoked`, and an
/// unknown token `Invalid refresh token`.
pub proof fn lemma_refresh_single_use(rt: RefreshToken, used: int, later: int)
    ensures
        !refresh_usable((RefreshToken { used_at: Some(used as i64), ..rt }), later),
        !refresh_usable((RefreshToken { revoked_at: Some(used as i64), ..rt }), later),
        refresh_outcome(Some(RefreshToken { used_at: Some(used as i64), ..rt }), later) == Err::<
            (),
            (ErrorKind, Seq<char>),
        >((ErrorKind::Unauthorized, "Refresh token expired or revoked"@)),
        refresh_outcome(Some(RefreshToken { revoked_at: Some(used as i64), ..rt }), later) == Err::<
            (),
            (ErrorKind, Seq<char>),
        >((ErrorKind::Unauthorized, "Refresh token expired or revoked"@)),
        refresh_outcome(None, later) == Err::<(), (ErrorKind, Seq<char>)>(
            (ErrorKind::Unauthorized, "Invalid refresh token"@),
        ),
{
}

/// The refresh step: check the presented token now, and give the record
/// to store back (marked used) with the instant used for both.
pub fn refresh_plan(rt: Option<RefreshToken>) -> (res: AppResult<(RefreshToken, i64)>)
    ensures
        rt is None ==> (res matches Err(e) && e.is(ErrorKind::Unauthorized, "Invalid refresh token"@)),
        res matches Err(e) ==> e.is(ErrorKind::Unauthorized, "Invalid refresh token"@) || e.is(
            ErrorKind::Unauthorized,
            "Refresh token expired or revoked"@,
        ),
        rt matches Some(t) ==> (t.used_at is Some || t.revoked_at is Some) ==> (res matches Err(e)
            && e.is(ErrorKind::Unauthorized, "Refresh token expired or revoked"@)),
        rt is Some ==> (res matches Err(e) ==> e.is(
            ErrorKind::Unauthorized,
            "Refresh token expired or revoked"@,
        )),
        res matches Ok((r, now)) ==> rt matches Some(t) && refresh_usable(t, now as int) && r
            == (RefreshToken { used_at: Some(now), ..t }) && in_range(now as int),
{
    let now = now_micros();
    let t = refresh_check_at(rt, now)?;
    Ok((mark_refresh_used(t, now), now))
}

// ---------------------------------------------------------------------
// One-time tokens: password reset and e-mail verification
// ---------------------------------------------------------------------

/// The reset token created for `user` at `now`, valid for one hour.
pub fn reset_token_at(user: &User, token_id: String, token: String, now: i64) -> (res: AppResult<
    PasswordResetToken,
>)
    requires
        in_range(now as int),
    ensures
        plus_minutes(now as int, 60int) is None ==> (res matches Err(e) && e.is(
            ErrorKind::Internal,
            "Token expiry out of range"@,
        )),
        res matches Ok(t) ==> {
            &&& t.id == token_id
            &&& t.user_id@ == user.id@
            &&& t.token == token
            &&& Some(t.expires_at as int) == plus_minutes(now as int, 60int)
            &&& t.used_at is None
            &&& t.created_at == now
        },
        plus_minutes(now as int, 60int) is Some ==> res is Ok,
{
    let expires_at = match crate::clock::add_hours(now, 1) {
        Some(t) => t,
        None => {
            return Err(AppError::new(ErrorKind::Internal, "Token expiry out of range"));
        },
    };
    Ok(
        PasswordResetToken {
            id: token_id,
            user_id: user.id.clone(),
            token,
            expires_at,
            used_at: None,
            created_at: now,
        },
    )
}

/// The forgotten-password step: a fresh reset token for the account found
/// by address, nothing when there is none (the answer is the same either way).
pub fn forgot_password_plan(user: Option<User>) -> (res: AppResult<Option<PasswordResetToken>>)
    ensures
        user is None ==> res == Ok::<Option<PasswordResetToken>, AppError>(None),
        user matches Some(u) ==> (res matches Ok(o) ==> (o matches Some(t) && t.user_id@ == u.id@
            && t.used_at is None && is_uuid_text(t.token@) && Some(t.expires_at as int)
            == plus_minutes(t.created_at as int, 60int))),
        res matches Err(e) ==> e.is(ErrorKind::Internal, "Token expiry out of range"@),
{
    match user {
        None => Ok(None),
        Some(u) => {
            let token = new_uuid();
            let now = now_micros();
            let token_id = new_uuid();
            let t = reset_token_at(&u, token_id, token, now)?;
            Ok(Some(t))
        },
    }
}

/// What presenting a one-time token at `now` is answered: `missing` when it
/// is unknown, `invalid` when it is used or expired, accepted otherwise.
pub open spec fn one_time_outcome(
    t: Option<PasswordResetToken>,
    now: int,
    missing: Seq<char>,
    invalid: Seq<char>,
) -> Result<(), (ErrorKind, Seq<char>)> {
    match t {
        None => Err((ErrorKind::BadRequest, missing)),
        Some(x) => if one_time_usable(x, now) {
            Ok(())
        } else {
            Err((ErrorKind::BadRequest, invalid))
        },
    }
}

/// The outcome of presenting a one-time token at `now`: `missing` when it is
/// unknown, `invalid` when it is used or expired.
pub fn one_time_check_at(
    t: Option<PasswordResetToken>,
    now: i64,
    missing: &str,
    invalid: &str,
) -> (res: AppResult<PasswordResetToken>)
    ensures
        match one_time_outcome(t, now as int, missing@, invalid@) {
            Ok(()) => t matches Some(x) && res == Ok::<PasswordResetToken, AppError>(x),
            Err((k, m)) => res matches Err(e) && e.is(k, m),
        },
{
    match t {
        None => Err(AppError::new(ErrorKind::BadRequest, missing)),
        Some(x) => {
            if x.is_valid_at(now) {
                Ok(x)
            } else {
                Err(AppError::new(ErrorKind::BadRequest, invalid))
            }
        },
    }
}

/// The record of a one-time token once it has been used at `now`.
pub fn mark_one_time_used(t: PasswordResetToken, now: i64) -> (r: PasswordResetToken)
    ensures
        r.used_at == Some(now),
        r.id == t.id,
        r.user_id == t.user_id,
        r.token == t.token,
        r.expires_at == t.expires_at,
        r.created_at == t.created_at,
{
    PasswordResetToken { used_at: Some(now), ..t }
}

/// A one-time token, once used, is refused ever after.
/// Presenting it again is answered with the `invalid` message of its use (for
/// a reset, `Reset token expired or already used`).
pub proof fn lemma_one_time_single_use(
    t: PasswordResetToken,
    used: int,
    later: int,
    missing: Seq<char>,
    invalid: Seq<char>,
)
    ensures
        !one_time_usable((PasswordResetToken { used_at: Some(used as i64), ..t }), later),
        one_time_outcome(Some(PasswordResetToken { used_at: Some(used as i64), ..t }), later, missing, invalid)
            == Err::<(), (ErrorKind, Seq<char>)>((ErrorKind::BadRequest, invalid)),
{
}

/// What a password reset stores: the account's new hash and the used token.
pub struct PasswordReset {
    pub user_id: String,
    pub password_hash: String,
    pub token: PasswordResetToken,
    pub now: i64,
}

/// The password reset step: the token must be known, unused and unexpired;
/// the new password is then hashed.
pub fn reset_password_plan(t: Option<PasswordResetToken>, new_password: &str) -> (res: AppResult<
    PasswordReset,
>)
    ensures
        t is None ==> (res matches Err(e) && e.is(ErrorKind::BadRequest, "Invalid reset token"@)),
        t matches Some(x) ==> x.used_at is Some ==> (res matches Err(e) && e.is(
            ErrorKind::BadRequest,
            "Reset token expired or already used"@,
        )),
        res matches Ok(p) ==> {
            &&& t matches Some(x)
            &&& one_time_usable(x, p.now as int)
            &&& p.user_id@ == x.user_id@
            &&& password_matches(new_password@, p.password_hash@)
            &&& p.token == (PasswordResetToken { used_at: Some(p.now), ..x })
        },
        res matches Err(e) ==> e.is(ErrorKind::BadRequest, "Invalid reset token"@) || e.is(
            ErrorKind::BadRequest,
            "Reset token expired or already used"@,
        ) || e.is(ErrorKind::Internal, "Failed to hash password"@),
        t is Some ==> (res matches Err(e) ==> e.is(
            ErrorKind::BadRequest,
            "Reset token expired or already used"@,
        ) || e.is(ErrorKind::Internal, "Failed to hash password"@)),
{
    let now = now_micros();
    let x = one_time_check_at(t, now, "Invalid reset token", "Reset token expired or already used")?;
    let hash = hash_password(new_password)?;
    let user_id = x.user_id.clone();
    Ok(PasswordReset { user_id, password_hash: hash, token: mark_one_time_used(x, now), now })
}

/// What an e-mail verification stores: the verified account and the used token.
pub struct EmailVerification {
    pub user_id: String,
    pub token: PasswordResetToken,
    pub now: i64,
}

/// The e-mail verification step: the token must be known, unused and unexpired.
pub fn verify_email_plan(t: Option<PasswordResetToken>) -> (res: AppResult<EmailVerification>)
    ensures
        t is None ==> (res matches Err(e) && e.is(ErrorKind::BadRequest, "Invalid verification token"@)),
        t matches Some(x) ==> x.used_at is Some ==> (res matches Err(e) && e.is(
            ErrorKind::BadRequest,
            "Verification token expired or already used"@,
        )),
        res matches Ok(v) ==> {
            &&& t matches Some(x)
            &&& one_time_usable(x, v.now as int)
            &&& v.user_id@ == x.user_id@
            &&& v.token == (PasswordResetToken { used_at: Some(v.now), ..x })
        },
        res matches Err(e) ==> e.is(ErrorKind::BadRequest, "Invalid verification token"@) || e.is(
            ErrorKind::BadRequest,
            "Verification token expired or already used"@,
        ),
        t is Some ==> (res matches Err(e) ==> e.is(
            ErrorKind::BadRequest,
            "Verification token expired or already used"@,
        )),
{
    let now = now_micros();
    let x = one_time_check_at(
        t,
        now,
        "Invalid verification token",
        "Verification token expired or already used",
    )?;
    let user_id = x.user_id.clone();
    Ok(EmailVerification { user_id, token: mark_one_time_used(x, now), now })
}

// ---------------------------------------------------------------------
// Password change
// ---------------------------------------------------------------------

/// The password change step for the caller's account: the current password
/// must match; the new one is then hashed.
pub fn change_password_plan(user: &User, req: &ChangePasswordRequest) -> (res: AppResult<String>)
    ensures
        !password_matches(req.current_password@, stored_hash(user.password)) ==> (res matches Err(e)
            && e.is(ErrorKind::BadRequest, "Current password incorrect"@)),
        res matches Ok(h) ==> password_matches(req.current_password@, stored_hash(user.password))
            && password_matches(req.new_password@, h@),
        res matches Err(e) ==> e.is(ErrorKind::BadRequest, "Current password incorrect"@) || e.is(
            ErrorKind::Internal,
            "Failed to hash password"@,
        ),
        password_matches(req.current_password@, stored_hash(user.password)) ==> (res matches Err(e)
            ==> e.is(ErrorKind::Internal, "Failed to hash password"@)),
{
    if !check_account_password(req.current_password.as_str(), &user.password) {
        return Err(AppError::new(ErrorKind::BadRequest, "Current password incorrect"));
    }
    hash_password(req.new_password.as_str())
}


// ---------------------------------------------------------------------
// Social login
// ---------------------------------------------------------------------

/// A social login provider.
#[derive(Debug, Clone, Copy, PartialEq, Eq, Structural)]
pub enum Provider {
    Google,
    Facebook,
}

/// The name a provider is stored under.
pub open spec fn provider_name(p: Provider) -> Seq<char> {
    match p {
        Provider::Google => "google"@,
        Provider::Facebook => "facebook"@,
    }
}

/// The name a provider is stored under.
pub fn provider_key(p: Provider) -> (s: String)
    ensures
        s@ == provider_name(p),
{
    match p {
        Provider::Google => owned("google"),
        Provider::Facebook => owned("facebook"),
    }
}

/// Social login with a provider is available only when its client id is set.
pub fn oauth_configured(p: Provider, client_id: &str) -> (res: AppResult<()>)
    ensures
        client_id@.len() == 0 ==> (res matches Err(e) && e.is(
            ErrorKind::BadRequest,
            match p {
                Provider::Google => "Google OAuth not configured"@,
                Provider::Facebook => "Facebook OAuth not configured"@,
            },
        )),
        client_id@.len() > 0 ==> res is Ok,
{
    if client_id.is_empty() {
        match p {
            Provider::Google => Err(AppError::new(ErrorKind::BadRequest, "Google OAuth not configured")),
            Provider::Facebook => Err(AppError::new(ErrorKind::BadRequest, "Facebook OAuth not configured")),
        }
    } else {
        Ok(())
    }
}

/// The Facebook Graph address that answers the profile of the token's owner.
pub open spec fn facebook_profile_url_of(token: Seq<char>) -> Seq<char> {
    "https://graph.facebook.com/me?fields=id,name,email&access_token="@ + token
}

/// The Facebook Graph address that answers the profile of the token's owner.
pub fn facebook_profile_url(token: &str) -> (url: String)
    ensures
        url@ == facebook_profile_url_of(token@),
{
    let mut out = chars_of("https://graph.facebook.com/me?fields=id,name,email&access_token=");
    push_str(&mut out, token);
    string_from_chars(&out)
}

/// The fields of a provider's profile answer, each present only when it is a string.
pub struct ProviderProfile {
    pub id: Option<String>,
    pub email: Option<String>,
    pub name: Option<String>,
}

/// Who a provider says the token's owner is.
pub struct OAuthIdentity {
    pub provider_id: String,
    pub email: String,
    pub name: String,
}

/// The identity in a provider's profile: its id is required (else the token
/// is refused as invalid); a missing address or name is the empty text.
pub fn oauth_identity(p: Provider, profile: ProviderProfile) -> (res: AppResult<OAuthIdentity>)
    ensures
        profile.id is None ==> (res matches Err(e) && e.is(
            ErrorKind::Unauthorized,
            match p {
                Provider::Google => "Invalid Google token"@,
                Provider::Facebook => "Invalid Facebook token"@,
            },
        )),
        profile.id matches Some(id) ==> (res matches Ok(i) && i.provider_id@ == id@ && i.email@ == (
        match profile.email {
            Some(e) => e@,
            None => Seq::<char>::empty(),
        }) && i.name@ == (match profile.name {
            Some(n) => n@,
            None => Seq::<char>::empty(),
        })),
{
    match profile.id {
        None => match p {
            Provider::Google => Err(AppError::new(ErrorKind::Unauthorized, "Invalid Google token")),
            Provider::Facebook => Err(AppError::new(ErrorKind::Unauthorized, "Invalid Facebook token")),
        },
        Some(id) => {
            let email = match profile.email {
                Some(e) => e,
                None => String::new(),
            };
            let name = match profile.name {
                Some(n) => n,
                None => String::new(),
            };
            Ok(OAuthIdentity { provider_id: id, email, name })
        },
    }
}

/// The next step of a social login after looking up the provider link.
#[derive(Debug, PartialEq, Eq)]
pub enum OAuthNext {
    /// The provider account is linked already: log in as this user.
    Linked(String),
    /// Look up an active account by the provider's e-mail address.
    LookupByEmail,
    /// No address to match on: create a new account.
    CreateUser,
}

/// What follows the lookup of the provider link: the linked user if any,
/// otherwise a lookup by address when the provider gave one.
pub fn oauth_next(existing: Option<SocialAccount>, email: &str) -> (next: OAuthNext)
    ensures
        existing matches Some(sa) ==> (next matches OAuthNext::Linked(u) && u@ == sa.user_id@),
        existing is None && email@.len() > 0 ==> next is LookupByEmail,
        existing is None && email@.len() == 0 ==> next is CreateUser,
{
    match existing {
        Some(sa) => OAuthNext::Linked(sa.user_id),
        None => if email.is_empty() {
            OAuthNext::CreateUser
        } else {
            OAuthNext::LookupByEmail
        },
    }
}

/// What a first social login stores: the account to create (unless one with
/// the address exists) and the link to the provider account.
pub struct OAuthLink {
    pub user_id: String,
    pub new_user: Option<NewUser>,
    pub link: SocialAccount,
}

/// The first social login of `identity` at `now`: the account found by
/// address (`None` when there is none or no address) is linked; otherwise a
/// new active, verified account named after the provider profile (with its
/// address, when given) is created with id `user_id`. The link gets id `link_id`.
pub fn oauth_link_at(
    found: Option<User>,
    identity: &OAuthIdentity,
    p: Provider,
    user_id: String,
    link_id: String,
    now: i64,
) -> (l: OAuthLink)
    ensures
        match found {
            Some(u) => l.user_id@ == u.id@ && l.new_user is None,
            None => {
                &&& l.user_id@ == user_id@
                &&& l.new_user matches Some(n)
                &&& n.id@ == user_id@
                &&& n.name@ == identity.name@
                &&& opt_view(n.email) == (if identity.email@.len() == 0 {
                    None::<Seq<char>>
                } else {
                    Some(identity.email@)
                })
                &&& n.username is None
                &&& n.password is None
                &&& !n.is_root
                &&& n.is_active
                &&& n.email_verified
                &&& n.role_id is None
                &&& n.created_at == now
                &&& n.updated_at == now
            },
        },
        l.link.id@ == link_id@,
        l.link.user_id@ == l.user_id@,
        l.link.provider@ == provider_name(p),
        l.link.provider_id@ == identity.provider_id@,
        l.link.created_at == now,
        l.link.updated_at == now,
{
    let (uid, new_user) = match found {
        Some(u) => (u.id, None),
        None => {
            let email = if identity.email.as_str().is_empty() {
                None
            } else {
                Some(identity.email.clone())
            };
            let n = NewUser {
                id: user_id.clone(),
                name: identity.name.clone(),
                email,
                username: None,
                password: None,
                is_root: false,
                is_active: true,
                email_verified: true,
                role_id: None,
                created_at: now,
                updated_at: now,
            };
            (user_id, Some(n))
        },
    };
    let link = SocialAccount {
        id: link_id,
        user_id: uid.clone(),
        provider: provider_key(p),
        provider_id: identity.provider_id.clone(),
        created_at: now,
        updated_at: now,
    };
    OAuthLink { user_id: uid, new_user, link }
}

/// The first social login of `identity`, with fresh ids and the current time.
pub fn oauth_link(found: Option<User>, identity: &OAuthIdentity, p: Provider) -> (l: OAuthLink)
    ensures
        found matches Some(u) ==> l.user_id@ == u.id@ && l.new_user is None,
        found is None ==> (l.new_user matches Some(n) && {
            &&& n.id@ == l.user_id@
            &&& is_uuid_text(n.id@)
            &&& n.name@ == identity.name@
            &&& opt_view(n.email) == (if identity.email@.len() == 0 {
                None::<Seq<char>>
            } else {
                Some(identity.email@)
            })
            &&& n.username is None
            &&& n.password is None
            &&& !n.is_root
            &&& n.is_active
            &&& n.email_verified
            &&& n.role_id is None
            &&& n.created_at == l.link.created_at
            &&& n.updated_at == l.link.created_at
        }),
        l.link.user_id@ == l.user_id@,
        l.link.provider@ == provider_name(p),
        l.link.provider_id@ == identity.provider_id@,
        l.link.updated_at == l.link.created_at,
        0 <= l.link.created_at,
        is_uuid_text(l.link.id@),
{
    let user_id = new_uuid();
    let now = now_micros();
    let link_id = new_uuid();
    oauth_link_at(found, identity, p, user_id, link_id, now)
}

// ---------------------------------------------------------------------
// Laws across operations
// ---------------------------------------------------------------------

/// An account stored with a hash that `password` matches, active and (when
/// verification is required) verified, passes the login checks with that
/// password. This is the state that registration without verification, a
/// password change and a password reset leave behind.
pub proof fn lemma_login_after_password_set(u: User, password: Seq<char>, cfg: Config)
    requires
        password_matches(password, stored_hash(u.password)),
        u.is_active,
        cfg.email_verification_required ==> u.email_verified,
    ensures
        login_outcome(Some(u), password, cfg) == Ok::<(), (ErrorKind, Seq<char>)>(()),
{
}

/// The stored account of a registration (read back as a user with no
/// photo and no deletion mark) passes the login checks with the registered
/// password when e-mail verification is not required.
pub proof fn lemma_registered_user_logs_in(
    r: NewUser,
    u: User,
    req: RegisterRequest,
    cfg: Config,
    id: Seq<char>,
    hash: Seq<char>,
    now: int,
)
    requires
        registered_user(r, req, cfg, id, hash, now),
        password_matches(req.password@, hash),
        !cfg.email_verification_required,
        u.id@ == r.id@,
        opt_view(u.password) == opt_view(r.password),
        u.is_active == r.is_active,
        u.email_verified == r.email_verified,
    ensures
        login_outcome(Some(u), req.password@, cfg) == Ok::<(), (ErrorKind, Seq<char>)>(()),
{
}

/// A refresh token just issued with a positive lifetime is accepted from
/// the instant it was issued until it expires.
pub proof fn lemma_issued_refresh_usable(t: IssuedTokens, user: User, cfg: Config, now: int, id: Seq<char>, at: int)
    requires
        issued_at(t, user, cfg, now, id),
        now <= at < t.record.expires_at,
    ensures
        refresh_usable(t.record, at),
{
}

/// The access token of an issued pair carries the claims of the user it was
/// issued to: the token that the signature gives for those claims, under the
/// configured secret, is that access token, and the only access claims its
/// payload holds name that user. Authentication, which accepts a token only
/// for access claims in its payload, therefore names that user; the refresh
/// token of the pair holds no access claims and is never accepted for one.
pub proof fn lemma_issued_access_token_names_user(t: IssuedTokens, user: User, cfg: Config, now: int, id: Seq<char>)
    requires
        issued_at(t, user, cfg, now, id),
    ensures
        exists|c: AccessClaimsView|
            #![trigger access_claims_json(c)]
            c.sub == user.id@ && c.is_root == user.is_root && hs256_token(
                access_claims_json(c),
                padded_secret(vstd::utf8::encode_utf8(cfg.jwt_secret@)),
            ) == Some(t.access_token@),
        forall|c: AccessClaimsView|
            #![trigger access_claims_json(c)]
            jwt_claims_text(t.access_token@) == Some(access_claims_json(c)) ==> c.sub == user.id@
                && c.is_root == user.is_root,
        forall|c: AccessClaimsView|
            #![trigger access_claims_json(c)]
            jwt_claims_text(t.refresh_token@) != Some(access_claims_json(c)),
{
    let c0 = access_claims_at(user.id@, user.is_root, now, cfg.jwt_access_expire as int)->0;
    let exp = plus_minutes(now, cfg.jwt_refresh_expire as int)->0;
    assert forall|c: AccessClaimsView|
        jwt_claims_text(t.access_token@) == Some(access_claims_json(c)) implies c.sub == user.id@
        && c.is_root == user.is_root by {
        lemma_access_claims_json_injective(c, c0);
    }
    assert forall|c: AccessClaimsView|
        #![trigger access_claims_json(c)]
        jwt_claims_text(t.refresh_token@) != Some(access_claims_json(c)) by {
        lemma_refresh_claims_not_access(user.id@, seconds_of(exp) as i64, seconds_of(now) as i64, c);
    }
}


/// Login rules: an attempt succeeds exactly for an active account whose
/// stored hash the password matches and which, when verification is
/// required, is verified. A wrong password or an unknown address is refused
/// as `Invalid email or password`; a matching password on an inactive
/// account is refused as `Account is inactive` whatever the verification
/// setting; an active unverified account is refused only when verification
/// is required.
pub proof fn lemma_login_rules(u: User, password: Seq<char>, cfg: Config)
    ensures
        (login_outcome(Some(u), password, cfg) is Ok) == (password_matches(
            password,
            stored_hash(u.password),
        ) && u.is_active && (cfg.email_verification_required ==> u.email_verified)),
        login_outcome(None, password, cfg) == Err::<(), (ErrorKind, Seq<char>)>(
            (ErrorKind::Unauthorized, "Invalid email or password"@),
        ),
        !password_matches(password, stored_hash(u.password)) ==> login_outcome(Some(u), password, cfg)
            == Err::<(), (ErrorKind, Seq<char>)>((ErrorKind::Unauthorized, "Invalid email or password"@)),
        password_matches(password, stored_hash(u.password)) && !u.is_active ==> login_outcome(
            Some(u),
            password,
            cfg,
        ) == Err::<(), (ErrorKind, Seq<char>)>((ErrorKind::Forbidden, "Account is inactive"@)),
        password_matches(password, stored_hash(u.password)) && u.is_active && !u.email_verified
            ==> (login_outcome(Some(u), password, cfg) == if cfg.email_verification_required {
            Err::<(), (ErrorKind, Seq<char>)>((ErrorKind::Forbidden, "Please verify your email first"@))
        } else {
            Ok::<(), (ErrorKind, Seq<char>)>(())
        }),
{
}

/// A registered account carries what the form gave: its name, address and
/// username; the stored password is the given hash; it is neither root nor
/// given a role, it is active, and it counts as verified exactly when the
/// configuration does not ask for verification.
pub proof fn lemma_registration_keeps_form(
    r: NewUser,
    req: RegisterRequest,
    cfg: Config,
    id: Seq<char>,
    hash: Seq<char>,
    now: int,
)
    requires
        registered_user(r, req, cfg, id, hash, now),
    ensures
        r.id@ == id,
        r.name@ == req.name@,
        r.email matches Some(e) && e@ == req.email@,
        match req.username {
            Some(n) => r.username matches Some(m) && m@ == n@,
            None => r.username is None,
        },
        r.password matches Some(p) && p@ == hash,
        !r.is_root,
        r.is_active,
        r.email_verified != cfg.email_verification_required,
        r.role_id is None,
        r.created_at == now && r.updated_at == now,
{
}

/// A refresh token is accepted exactly while it is neither revoked nor used
/// and its expiry lies after the instant it is presented.
pub proof fn lemma_refresh_acceptance(t: RefreshToken, now: int)
    ensures
        (refresh_outcome(Some(t), now) is Ok) == (t.revoked_at is None && t.used_at is None && now
            < t.expires_at),
{
}

/// A one-time token is accepted exactly while it is unused and its expiry
/// lies after the instant it is presented; an unknown one gets `missing`.
pub proof fn lemma_one_time_acceptance(t: PasswordResetToken, now: int, missing: Seq<char>, invalid: Seq<char>)
    ensures
        (one_time_outcome(Some(t), now, missing, invalid) is Ok) == (t.used_at is None && now
            < t.expires_at),
        one_time_outcome(None, now, missing, invalid) == Err::<(), (ErrorKind, Seq<char>)>(
            (ErrorKind::BadRequest, missing),
        ),
{
}


/// An issued pair: the access token's claims name the user with its root
/// flag, were issued at the pair's instant (in whole seconds) and expire the
/// configured number of minutes later; its lifetime is reported in seconds;
/// the stored refresh record belongs to the user, holds the refresh token,
/// is neither used nor revoked, and expires the configured number of
/// refresh minutes after the instant of issue.
pub proof fn lemma_issued_pair(t: IssuedTokens, user: User, cfg: Config, now: int, id: Seq<char>)
    requires
        issued_at(t, user, cfg, now, id),
    ensures
        exists|c: AccessClaimsView|
            #![trigger access_claims_json(c)]
            jwt_claims_text(t.access_token@) == Some(access_claims_json(c)) && c.sub == user.id@
                && c.is_root == user.is_root && c.iat == now / 1_000_000 && c.exp - c.iat
                == cfg.jwt_access_expire * 60,
        t.expires_in == cfg.jwt_access_expire * 60,
        t.record.id@ == id,
        t.record.user_id@ == user.id@,
        t.record.token@ == t.refresh_token@,
        t.record.used_at is None,
        t.record.revoked_at is None,
        t.record.created_at == now,
        t.record.expires_at == now + cfg.jwt_refresh_expire * 60_000_000,
{
    let c = access_claims_at(user.id@, user.is_root, now, cfg.jwt_access_expire as int)->0;
    let m = cfg.jwt_access_expire as int;
    assert((now + m * 60_000_000) / 1_000_000 == now / 1_000_000 + m * 60) by (nonlinear_arith);
    assert(jwt_claims_text(t.access_token@) == Some(access_claims_json(c)));
}

} // verus!
