use auth_service::auth::{
    authorize_claims, bearer_token, get_jwt, get_jwt_at, is_auth, jwt_claims_at, jwt_from_header,
    Claims, TOKEN_LIFETIME_SECS,
};
use auth_service::clock::{Timestamp, MAX_TIMESTAMP};
use auth_service::errors::AuthError;
use auth_service::models::User;
use auth_service::password::{check_password, verify_pwd};
use auth_service::roles::Role;

fn sample_user() -> User {
    User {
        id: 7,
        email: "ann@example.com".to_string(),
        name: "ann".to_string(),
        password: String::new(),
        role: "Admin".to_string(),
        created_at: Timestamp { secs: 1_700_000_000, nanos: 0 },
        updated_at: None,
    }
}

#[test]
fn is_auth_same_role_or_admin() {
    assert!(is_auth(Role::User, "User"));
    assert!(is_auth(Role::User, "admin"));
    assert!(is_auth(Role::Admin, "Admin"));
    assert!(!is_auth(Role::Admin, "User"));
    assert!(!is_auth(Role::Admin, "superuser"));
    assert!(is_auth(Role::User, "superuser"));
}

#[test]
fn bearer_token_strips_prefix() {
    assert_eq!(bearer_token("Bearer abc.def.ghi").unwrap(), "abc.def.ghi");
    assert_eq!(bearer_token("Bearer ").unwrap(), "");
    assert_eq!(bearer_token("Bearer Bearer tok").unwrap(), "tok");
    assert_eq!(bearer_token("Bearer  tok").unwrap(), " tok");
}

#[test]
fn bearer_token_needs_scheme() {
    assert_eq!(bearer_token("bearer tok").unwrap_err(), AuthError::InvalidAuthHeaderError);
    assert_eq!(bearer_token("Basic dXNlcg==").unwrap_err(), AuthError::InvalidAuthHeaderError);
    assert_eq!(bearer_token("Bearer").unwrap_err(), AuthError::InvalidAuthHeaderError);
    assert_eq!(bearer_token("").unwrap_err(), AuthError::InvalidAuthHeaderError);
}

#[test]
fn jwt_from_header_cases() {
    assert_eq!(jwt_from_header(None).unwrap_err(), AuthError::NoAuthHeaderError);
    assert_eq!(jwt_from_header(Some(&[0x42, 0xff, 0xfe][..])).unwrap_err(), AuthError::NoAuthHeaderError);
    assert_eq!(jwt_from_header(Some("Token x".as_bytes())).unwrap_err(), AuthError::InvalidAuthHeaderError);
    assert_eq!(jwt_from_header(Some("Bearer é.ü".as_bytes())).unwrap(), "é.ü");
}

#[test]
fn authorize_claims_cases() {
    let claims = |role: &str| Claims { sub: "ann".to_string(), role: role.to_string(), exp: 10 };
    assert_eq!(authorize_claims(Role::User, None).unwrap_err(), AuthError::JWTTokenError);
    assert_eq!(authorize_claims(Role::Admin, Some(claims("User"))).unwrap_err(), AuthError::NotAuthorizedError);
    assert_eq!(authorize_claims(Role::Admin, Some(claims("ADMIN"))).unwrap(), "ann");
    assert_eq!(authorize_claims(Role::User, Some(claims("User"))).unwrap(), "ann");
}

#[test]
fn claims_expire_a_minute_later() {
    let user = sample_user();
    let c = jwt_claims_at(&user, Timestamp { secs: 1_700_000_000, nanos: 5 }).unwrap();
    assert_eq!(c.sub, "ann");
    assert_eq!(c.role, "Admin");
    assert_eq!(c.exp, 1_700_000_060);
    assert_eq!(TOKEN_LIFETIME_SECS, 60);
    assert!(jwt_claims_at(&user, Timestamp { secs: MAX_TIMESTAMP - 59, nanos: 0 }).is_none());
    assert_eq!(jwt_claims_at(&user, Timestamp { secs: MAX_TIMESTAMP - 60, nanos: 0 }).unwrap().exp, MAX_TIMESTAMP as usize);
}

#[test]
fn issued_token_decodes_to_claims() {
    let user = sample_user();
    let token = get_jwt_at(&user, Timestamp { secs: 1_700_000_000, nanos: 0 }, b"secret").unwrap();
    assert_eq!(token.split('.').count(), 3);
    let mut validation = jsonwebtoken::Validation::default();
    validation.validate_exp = false;
    let data = jsonwebtoken::decode::<serde_json::Value>(
        &token,
        &jsonwebtoken::DecodingKey::from_secret(b"secret"),
        &validation,
    )
    .unwrap();
    assert_eq!(data.claims, serde_json::from_str::<serde_json::Value>(r#"{"sub":"ann","role":"Admin","exp":1700000060}"#).unwrap());
    assert!(jsonwebtoken::decode::<serde_json::Value>(
        &token,
        &jsonwebtoken::DecodingKey::from_secret(b"other"),
        &validation,
    )
    .is_err());
    assert!(get_jwt_at(&user, Timestamp { secs: MAX_TIMESTAMP, nanos: 0 }, b"secret").is_none());
}

#[test]
fn token_issued_now_is_valid_now() {
    let user = sample_user();
    let token = get_jwt(&user, b"k").unwrap();
    let data = jsonwebtoken::decode::<serde_json::Value>(
        &token,
        &jsonwebtoken::DecodingKey::from_secret(b"k"),
        &jsonwebtoken::Validation::default(),
    )
    .unwrap();
    assert_eq!(data.claims["sub"], "ann");
}

/// A PHC string made with cheap scrypt parameters (ln=4) for "hunter42".
const CHEAP_HASH: &str = "$scrypt$ln=4,r=8,p=1$c2FsdHNhbHRzYWx0c2FsdA$crZ5bpykfsBGbDenKJOXmJmbgTKisS/zL3uiEKLbFPg";

#[test]
fn verify_pwd_checks_stored_hash() {
    assert!(verify_pwd("hunter42", CHEAP_HASH));
    assert!(!verify_pwd("hunter43", CHEAP_HASH));
}

#[test]
fn check_password_cases() {
    assert_eq!(check_password("hunter42", CHEAP_HASH), Some(true));
    assert_eq!(check_password("wrong", CHEAP_HASH), Some(false));
    assert_eq!(check_password("hunter42", "not a hash"), None);
    assert_eq!(check_password("hunter42", ""), None);
}
