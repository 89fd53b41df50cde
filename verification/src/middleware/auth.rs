//! Who is calling: the bearer token of a request, checked and read.
use vstd::prelude::*;
use vstd::string::StringSliceAdditionalSpecFns;
use crate::errors::{AppError, AppResult, ErrorKind};
use crate::text::{chars_of, starts_with, string_from_chars, suffix_from};
use crate::utils::jwt::{
    access_claims_json, has_prefix, hs256_token, jwt_claims_text, padded_secret, parse_access_token, AccessClaims,
    AccessClaimsView,
};

verus! {

/// The authenticated caller of a request.
#[derive(Debug, Clone)]
pub struct AuthUser {
    pub user_id: String,
    pub is_root: bool,
}

/// The token carried by an `Authorization` header value: what follows `Bearer `.
pub open spec fn bearer_token_of(header: Seq<char>) -> Option<Seq<char>> {
    if has_prefix(header, "Bearer "@) {
        Some(header.skip(7))
    } else {
        None
    }
}

/// The token carried by an `Authorization` header value, if it has the
/// `Bearer ` form.
pub fn bearer_token(header: &str) -> (res: Option<String>)
    ensures
        match bearer_token_of(header@) {
            Some(t) => res matches Some(r) && r@ == t,
            None => res is None,
        },
{
    let cs = chars_of(header);
    let prefix = chars_of("Bearer ");
    proof {
        reveal_strlit("Bearer ");
    }
    if starts_with(&cs, &prefix) {
        let rest = suffix_from(&cs, 7);
        assert(rest@ =~= header@.skip(7));
        Some(string_from_chars(&rest))
    } else {
        None
    }
}

/// The caller named by checked access claims.
pub fn user_from_claims(claims: AccessClaims) -> (u: AuthUser)
    ensures
        u.user_id@ == claims.sub@,
        u.is_root == claims.is_root,
{
    AuthUser { user_id: claims.sub, is_root: claims.is_root }
}

/// The caller of a request, from its `Authorization` header (`None` when the
/// header is absent or not text) and the token secret. A header without a
/// bearer token is answered `Missing or invalid token`; a token that does not
/// check out, `Invalid or expired token`.
pub fn authenticate(header: Option<&str>, secret: &str) -> (res: AppResult<AuthUser>)
    ensures
        (match header {
            Some(h) => bearer_token_of(h@) is None,
            None => true,
        }) ==> (res matches Err(e) && e.is(ErrorKind::Unauthorized, "Missing or invalid token"@)),
        res matches Err(e) ==> e.is(ErrorKind::Unauthorized, "Missing or invalid token"@) || e.is(
            ErrorKind::Unauthorized,
            "Invalid or expired token"@,
        ),
        (match header {
            Some(h) => bearer_token_of(h@) is Some,
            None => false,
        }) ==> (res matches Err(e) ==> e.is(ErrorKind::Unauthorized, "Invalid or expired token"@)),
        res matches Ok(u) ==> (header matches Some(h) && bearer_token_of(h@) matches Some(t) && exists|
            c: AccessClaimsView,
        |
            #![trigger access_claims_json(c)]
            jwt_claims_text(t) == Some(access_claims_json(c)) && u.user_id@ == c.sub && u.is_root
                == c.is_root),
        forall|c: AccessClaimsView|
            #![trigger hs256_token(access_claims_json(c), padded_secret(secret.spec_bytes()))]
            (header matches Some(h) && bearer_token_of(h@) matches Some(t) && hs256_token(
                access_claims_json(c),
                padded_secret(secret.spec_bytes()),
            ) == Some(t)) ==> (res matches Ok(u) ==> u.user_id@ == c.sub && u.is_root == c.is_root),
{
    let token = match header {
        Some(h) => bearer_token(h),
        None => None,
    };
    match token {
        None => Err(AppError::new(ErrorKind::Unauthorized, "Missing or invalid token")),
        Some(t) => match parse_access_token(t.as_str(), secret) {
            Ok(claims) => Ok(user_from_claims(claims)),
            Err(_) => Err(AppError::new(ErrorKind::Unauthorized, "Invalid or expired token")),
        },
    }
}


/// The bearer token of a header is what follows `Bearer `: a header made of
/// `Bearer ` and a token gives that token back, and a header that gives a
/// token is `Bearer ` followed by it.
pub proof fn lemma_bearer_token_roundtrip(token: Seq<char>, header: Seq<char>)
    ensures
        bearer_token_of("Bearer "@ + token) == Some(token),
        bearer_token_of(header) matches Some(t) ==> header == "Bearer "@ + t,
{
    reveal_strlit("Bearer ");
    let h = "Bearer "@ + token;
    assert(h.take(7) =~= "Bearer "@);
    assert(h.skip(7) =~= token);
    if bearer_token_of(header) is Some {
        assert(header =~= header.take(7) + header.skip(7));
    }
}

} // verus!
