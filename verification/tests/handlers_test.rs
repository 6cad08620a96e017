use auth_service::clock::Timestamp;
use auth_service::errors::{DatabaseError, SecurityError, UserError};
use auth_service::handlers::{
    all_users_deleted_reply, create_user_after_lookup, delete_user_after_lookup, login_after_lookup,
    new_user_created, new_user_record, parse_user_id, password_changed, password_updated_reply, register_user_after_lookup,
    update_user_pwd_after_lookup, user_deleted_reply, user_updated_reply, DeleteStep, HandlerRejection,
    NewUserStep, StatusReply,
};
use auth_service::models::{LoginUser, PasswordUpdateRequest, User, UserCreateRequest, UserDeleteRequest};
use auth_service::roles::Role;

const CHEAP_HASH: &str = "$scrypt$ln=4,r=8,p=1$c2FsdHNhbHRzYWx0c2FsdA$crZ5bpykfsBGbDenKJOXmJmbgTKisS/zL3uiEKLbFPg";

fn stored(password: &str) -> User {
    User {
        id: 0x67e5_5044_10b1_426f_9247_bb68_0e5f_e0c8,
        email: "ann@example.com".to_string(),
        name: "ann".to_string(),
        password: password.to_string(),
        role: "User".to_string(),
        created_at: Timestamp { secs: 1_700_000_000, nanos: 12 },
        updated_at: Some(Timestamp { secs: 1_700_000_100, nanos: 0 }),
    }
}

fn request() -> UserCreateRequest {
    UserCreateRequest {
        email: "bob@example.com".to_string(),
        name: "bob".to_string(),
        password: "pw".to_string(),
        role: Some(Role::Admin),
    }
}

fn is_reply(r: &StatusReply, status: &str, message: Option<&str>) -> bool {
    r.status == status && r.message.as_deref() == message
}

#[test]
fn register_existing_email_is_refused() {
    match register_user_after_lookup(request(), Some(stored(CHEAP_HASH))) {
        NewUserStep::Reply(r) => assert!(is_reply(
            &r,
            "error",
            Some("Unable to complete registration, email already registered")
        )),
        NewUserStep::Create(_) => panic!("must not create"),
    }
    match create_user_after_lookup(request(), Some(stored(CHEAP_HASH))) {
        NewUserStep::Reply(r) => assert!(is_reply(
            &r,
            "error",
            Some("You can't create a user as this email already exists")
        )),
        NewUserStep::Create(_) => panic!("must not create"),
    }
}

#[test]
fn new_user_record_is_plain_user_with_hash() {
    let u = new_user_record(request(), CHEAP_HASH.to_string());
    assert_eq!(u.email, "bob@example.com");
    assert_eq!(u.name, "bob");
    assert_eq!(u.role, Some(Role::User));
    assert_eq!(u.password, CHEAP_HASH);
}

#[test]
fn creation_outcome() {
    assert!(is_reply(&new_user_created(Ok(0)).unwrap(), "success", None));
    let err = new_user_created(Err(DatabaseError { message: "dup".to_string() }));
    assert_eq!(err.err(), Some(HandlerRejection::User(UserError::CreateError)));
}

#[test]
fn login_cases() {
    let good = LoginUser { email: "ann@example.com".to_string(), password: "hunter42".to_string() };
    let bad = LoginUser { email: "ann@example.com".to_string(), password: "nope".to_string() };
    assert_eq!(login_after_lookup(&good, None).unwrap().err(), Some(HandlerRejection::User(UserError::FindError)));
    assert_eq!(
        login_after_lookup(&bad, Some(stored(CHEAP_HASH))).unwrap().err(),
        Some(HandlerRejection::Security(SecurityError::InvalidCredentials))
    );
    let user = login_after_lookup(&good, Some(stored(CHEAP_HASH))).unwrap().unwrap();
    assert_eq!(user.name, "ann");
    assert!(login_after_lookup(&good, Some(stored("plain text"))).is_none());
}

#[test]
fn delete_cases() {
    let req = || UserDeleteRequest { email: "ann@example.com".to_string(), password: "x".to_string() };
    match delete_user_after_lookup(req(), None) {
        DeleteStep::Reply(r) => {
            assert!(is_reply(&r, "error", Some("You can't create a user as this email already exists")))
        },
        DeleteStep::Delete(_) => panic!("nothing to delete"),
    }
    match delete_user_after_lookup(req(), Some(stored(CHEAP_HASH))) {
        DeleteStep::Delete(email) => assert_eq!(email, "ann@example.com"),
        DeleteStep::Reply(_) => panic!("must delete"),
    }
}

#[test]
fn constant_replies() {
    assert!(is_reply(&user_deleted_reply(), "success", Some("User deleted")));
    assert!(is_reply(&all_users_deleted_reply(), "success", Some("All users deleted")));
    assert!(is_reply(&user_updated_reply(), "success", Some("User updated")));
    assert!(is_reply(&password_updated_reply(), "success", Some("Password updated")));
}

fn pwd_request(current: &str) -> PasswordUpdateRequest {
    PasswordUpdateRequest {
        id: 1,
        role: Role::User,
        current_password: current.to_string(),
        new_password: "fresh".to_string(),
    }
}

#[test]
fn password_change_refusals() {
    assert_eq!(
        update_user_pwd_after_lookup(pwd_request("hunter42"), None).unwrap().err(),
        Some(HandlerRejection::User(UserError::UpdateError))
    );
    assert_eq!(
        update_user_pwd_after_lookup(pwd_request("nope"), Some(stored(CHEAP_HASH))).unwrap().err(),
        Some(HandlerRejection::Security(SecurityError::InvalidCredentials))
    );
    assert!(update_user_pwd_after_lookup(pwd_request("hunter42"), Some(stored("$x$"))).is_none());
}

#[test]
fn password_changed_replaces_only_the_hash() {
    let before = stored("$scrypt$old");
    let after = password_changed(stored("$scrypt$old"), CHEAP_HASH.to_string());
    assert_eq!(after.id, before.id);
    assert_eq!(after.email, before.email);
    assert_eq!(after.name, before.name);
    assert_eq!(after.role, before.role);
    assert_eq!(after.created_at, before.created_at);
    assert_eq!(after.updated_at, before.updated_at);
    assert_eq!(after.password, CHEAP_HASH);
}

#[test]
fn user_ids_are_uuids() {
    assert_eq!(
        parse_user_id("67e55044-10b1-426f-9247-bb680e5fe0c8"),
        Some(0x67e5_5044_10b1_426f_9247_bb68_0e5f_e0c8)
    );
    assert_eq!(parse_user_id("67e5504410b1426f9247bb680e5fe0c8"), Some(0x67e5_5044_10b1_426f_9247_bb68_0e5f_e0c8));
    assert_eq!(parse_user_id("not-a-uuid"), None);
    assert_eq!(parse_user_id(""), None);
}
