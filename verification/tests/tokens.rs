use starter_api::errors::ErrorKind;
use starter_api::middleware::auth::{authenticate, bearer_token};
use starter_api::utils::jwt::{
    access_claims_from_json, access_claims_to_json, access_token_at, claims_from_checked_json,
    generate_access_token, generate_refresh_token, pad_secret, parse_access_token,
    refresh_claims_to_json, refresh_token_at, AccessClaims, RefreshClaims,
};

fn claims(sub: &str, is_root: bool, exp: i64, iat: i64) -> AccessClaims {
    AccessClaims { sub: sub.to_string(), is_root, exp, iat }
}

#[test]
fn pad_secret_pads_short_secrets() {
    assert_eq!(pad_secret("secret"), b"secret00000000000000000000000000".to_vec());
    let long = "0123456789abcdef0123456789abcdef-long";
    assert_eq!(pad_secret(long), long.as_bytes().to_vec());
    assert_eq!(pad_secret("").len(), 32);
    assert_eq!(pad_secret("é").len(), 32);
}

#[test]
fn claims_json_text() {
    let c = claims("abc", true, 1700000900, 1700000000);
    assert_eq!(access_claims_to_json(&c), r#"{"sub":"abc","is_root":true,"exp":1700000900,"iat":1700000000}"#);
    let r = RefreshClaims { sub: "abc".to_string(), exp: -5, iat: 0 };
    assert_eq!(refresh_claims_to_json(&r), r#"{"sub":"abc","exp":-5,"iat":0}"#);
}

#[test]
fn claims_json_escapes_like_serde() {
    let sub = "q\"b\\s\n\t\r\u{8}\u{c}\u{1}\u{1f} é";
    let c = claims(sub, false, -1, i64::MIN);
    let text = access_claims_to_json(&c);
    let expected = format!(
        "{{\"sub\":{},\"is_root\":false,\"exp\":-1,\"iat\":{}}}",
        serde_json::to_string(sub).unwrap(),
        i64::MIN
    );
    assert_eq!(text, expected);
}

#[test]
fn claims_json_roundtrip() {
    for c in [
        claims("3f1c", true, 10, 0),
        claims("", false, i64::MAX, i64::MIN),
        claims("we\"ird\\\u{2}name", false, -42, 7),
    ] {
        let text = access_claims_to_json(&c);
        let back = access_claims_from_json(&text).expect("reads back");
        assert_eq!(back.sub, c.sub);
        assert_eq!(back.is_root, c.is_root);
        assert_eq!(back.exp, c.exp);
        assert_eq!(back.iat, c.iat);
    }
}

#[test]
fn claims_json_rejects_other_layouts() {
    assert!(access_claims_from_json(r#"{"sub":"a","is_root":true,"exp":1,"iat":0,"x":1}"#).is_none());
    assert!(access_claims_from_json(r#"{ "sub":"a","is_root":true,"exp":1,"iat":0}"#).is_none());
    assert!(access_claims_from_json(r#"{"sub":"a","is_root":true,"exp":01,"iat":0}"#).is_none());
    assert!(access_claims_from_json(r#"{"sub":"a","is_root":true,"exp":+1,"iat":0}"#).is_none());
    assert!(access_claims_from_json("").is_none());
    let e = claims_from_checked_json("{}").err().unwrap();
    assert_eq!(e.kind, ErrorKind::Unauthorized);
    assert_eq!(e.message, "Invalid token");
}

#[test]
fn access_token_is_signed_claims() {
    let now: i64 = 1_700_000_000_123_456;
    let token = access_token_at("user-1", true, "secret", 15, now).unwrap();
    let parts: Vec<&str> = token.split('.').collect();
    assert_eq!(parts.len(), 3);
    assert_ne!(token, access_claims_to_json(&claims("user-1", true, 1_700_000_900, 1_700_000_000)));
    let key = jsonwebtoken::DecodingKey::from_secret(&pad_secret("secret"));
    let mut v = jsonwebtoken::Validation::new(jsonwebtoken::Algorithm::HS256);
    v.validate_exp = false;
    let data = jsonwebtoken::decode::<serde_json::Value>(&token, &key, &v).unwrap();
    assert_eq!(data.claims["sub"], "user-1");
    assert_eq!(data.claims["is_root"], true);
    assert_eq!(data.claims["exp"], 1_700_000_900i64);
    assert_eq!(data.claims["iat"], 1_700_000_000i64);
}

#[test]
fn refresh_token_is_signed_claims() {
    let now: i64 = 1_000_000;
    let token = refresh_token_at("u", "k", 1, now).unwrap();
    let key = jsonwebtoken::DecodingKey::from_secret(&pad_secret("k"));
    let mut v = jsonwebtoken::Validation::new(jsonwebtoken::Algorithm::HS256);
    v.validate_exp = false;
    let data = jsonwebtoken::decode::<serde_json::Value>(&token, &key, &v).unwrap();
    assert_eq!(data.claims["sub"], "u");
    assert_eq!(data.claims["exp"], 61);
    assert_eq!(data.claims["iat"], 1);
}

#[test]
fn token_expiry_out_of_range() {
    let e = access_token_at("u", false, "s", i64::MAX, 0).err().unwrap();
    assert_eq!(e.kind, ErrorKind::Internal);
    assert_eq!(e.message, "Token expiry out of range");
    let e = refresh_token_at("u", "s", -300_000_000_000, 0).err().unwrap();
    assert_eq!(e.message, "Token expiry out of range");
}

#[test]
fn generated_access_token_parses_back() {
    let token = generate_access_token("id-42", true, "my-secret", 15).unwrap();
    let c = parse_access_token(&token, "my-secret").unwrap();
    assert_eq!(c.sub, "id-42");
    assert!(c.is_root);
    assert_eq!(c.exp - c.iat, 900);
}

#[test]
fn token_with_wrong_secret_or_expired_is_refused() {
    let token = generate_access_token("id-42", false, "my-secret", 15).unwrap();
    let e = parse_access_token(&token, "other").err().unwrap();
    assert_eq!(e.kind, ErrorKind::Unauthorized);
    assert_eq!(e.message, "Invalid token");
    let old = access_token_at("id-42", false, "my-secret", 15, 1_000_000).unwrap();
    assert!(parse_access_token(&old, "my-secret").is_err());
    assert!(parse_access_token("not-a-token", "my-secret").is_err());
    let refresh = generate_refresh_token("id-42", "my-secret", 60).unwrap();
    assert!(parse_access_token(&refresh, "my-secret").is_err());
}

#[test]
fn bearer_header() {
    assert_eq!(bearer_token("Bearer abc.def"), Some("abc.def".to_string()));
    assert_eq!(bearer_token("Bearer "), Some(String::new()));
    assert_eq!(bearer_token("bearer abc"), None);
    assert_eq!(bearer_token("Bearer"), None);
}

#[test]
fn authenticate_requests() {
    let e = authenticate(None, "s").err().unwrap();
    assert_eq!(e.message, "Missing or invalid token");
    assert_eq!(e.status_code(), 401);
    let e = authenticate(Some("Basic xyz"), "s").err().unwrap();
    assert_eq!(e.message, "Missing or invalid token");
    let e = authenticate(Some("Bearer garbage"), "s").err().unwrap();
    assert_eq!(e.message, "Invalid or expired token");
    let token = generate_access_token("u-7", false, "s", 5).unwrap();
    let header = format!("Bearer {}", token);
    let u = authenticate(Some(&header), "s").unwrap();
    assert_eq!(u.user_id, "u-7");
    assert!(!u.is_root);
}

#[test]
fn refresh_token_is_no_access_token() {
    let refresh = generate_refresh_token("u-9", "s", 60).unwrap();
    let e = parse_access_token(&refresh, "s").err().unwrap();
    assert_eq!((e.kind, e.message.as_str()), (ErrorKind::Unauthorized, "Invalid token"));
    let header = format!("Bearer {}", refresh);
    let e = authenticate(Some(&header), "s").err().unwrap();
    assert_eq!((e.kind, e.message.as_str()), (ErrorKind::Unauthorized, "Invalid or expired token"));
}
