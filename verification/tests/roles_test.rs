use auth_service::roles::{AuthUser, Role};

#[test]
fn from_str_reads_admin_in_any_case() {
    assert_eq!(Role::from_str("admin"), Role::Admin);
    assert_eq!(Role::from_str("Admin"), Role::Admin);
    assert_eq!(Role::from_str("ADMIN"), Role::Admin);
    assert_eq!(Role::from_str("aDmIn"), Role::Admin);
}

#[test]
fn from_str_reads_anything_else_as_user() {
    assert_eq!(Role::from_str("user"), Role::User);
    assert_eq!(Role::from_str(""), Role::User);
    assert_eq!(Role::from_str("admin "), Role::User);
    assert_eq!(Role::from_str("administrator"), Role::User);
    assert_eq!(Role::from_str("root"), Role::User);
    assert_eq!(Role::from_str("ADMİN"), Role::User);
}

#[test]
fn role_display_text() {
    assert_eq!(Role::User.to_string(), "User");
    assert_eq!(Role::Admin.to_string(), "Admin");
}

#[test]
fn role_display_round_trip() {
    for r in [Role::User, Role::Admin] {
        assert_eq!(Role::from_str(&r.to_string()), r);
    }
}

#[test]
fn auth_user_new_reads_role_and_time() {
    let u = AuthUser::new("42".to_string(), "ADMIN".to_string());
    assert_eq!(u.id, "42");
    assert_eq!(u.role, Role::Admin);
    assert!(u.login_at.secs > 1_600_000_000);
    assert!(u.login_at.nanos < 1_000_000_000);
    assert_eq!(u.to_string(), "42");
    let v = AuthUser::new("7".to_string(), "guest".to_string());
    assert_eq!(v.role, Role::User);
}
