use auth_service::errors::{database_error, AuthError, DatabaseError, SecurityError, UserError};
use auth_service::rejection::{error_reply, RejectionInfo};

fn info() -> RejectionInfo {
    RejectionInfo {
        not_found: false,
        user_error: None,
        auth_error: None,
        security_error: None,
        method_not_allowed: None,
    }
}

fn reply(i: &RejectionInfo) -> (u16, String, String) {
    let (code, body) = error_reply(i);
    (code, body.status, body.message)
}

#[test]
fn not_found_reply() {
    let mut i = info();
    i.not_found = true;
    i.user_error = Some(UserError::CreateError);
    assert_eq!(reply(&i), (404, "404 Not Found".to_string(), "Not Found".to_string()));
}

#[test]
fn user_error_replies() {
    let mut i = info();
    i.user_error = Some(UserError::CreateError);
    i.auth_error = Some(AuthError::JWTTokenError);
    assert_eq!(reply(&i), (500, "500 Internal Server Error".to_string(), "could not create user".to_string()));
    i.user_error = Some(UserError::FindError);
    assert_eq!(reply(&i), (400, "400 Bad Request".to_string(), "could not find user".to_string()));
    i.user_error = Some(UserError::UpdateError);
    assert_eq!(reply(&i).2, "could not update user");
    i.user_error = Some(UserError::DeleteError);
    assert_eq!(reply(&i).2, "could not delete user");
}

#[test]
fn auth_error_replies() {
    let mut i = info();
    i.security_error = Some(SecurityError::HashError);
    i.auth_error = Some(AuthError::InvalidCredentialsError);
    assert_eq!(reply(&i), (403, "403 Forbidden".to_string(), "invalid credentials".to_string()));
    i.auth_error = Some(AuthError::NotAuthorizedError);
    assert_eq!(reply(&i), (401, "401 Unauthorized".to_string(), "permission denied".to_string()));
    i.auth_error = Some(AuthError::JWTTokenError);
    assert_eq!(reply(&i), (401, "401 Unauthorized".to_string(), "jwt token not valid".to_string()));
    i.auth_error = Some(AuthError::JWTTokenCreationError);
    assert_eq!(reply(&i), (500, "500 Internal Server Error".to_string(), "Internal Server Error".to_string()));
    i.auth_error = Some(AuthError::NoAuthHeaderError);
    assert_eq!(reply(&i), (400, "400 Bad Request".to_string(), "authorization header required".to_string()));
    i.auth_error = Some(AuthError::InvalidAuthHeaderError);
    assert_eq!(reply(&i), (400, "400 Bad Request".to_string(), "invalid auth header".to_string()));
}

#[test]
fn security_error_replies() {
    let mut i = info();
    i.method_not_allowed = Some("HTTP method not allowed".to_string());
    i.security_error = Some(SecurityError::InvalidCredentials);
    assert_eq!(reply(&i), (400, "400 Bad Request".to_string(), "Authentication failed".to_string()));
    i.security_error = Some(SecurityError::HashError);
    assert_eq!(reply(&i), (400, "400 Bad Request".to_string(), "could not hash password".to_string()));
}

#[test]
fn method_not_allowed_and_unhandled_replies() {
    let mut i = info();
    assert_eq!(reply(&i), (500, "500 Internal Server Error".to_string(), "Internal Server Error".to_string()));
    i.method_not_allowed = Some("HTTP method not allowed".to_string());
    assert_eq!(reply(&i), (405, "405 Method Not Allowed".to_string(), "HTTP method not allowed".to_string()));
}

#[test]
fn error_display_texts() {
    assert_eq!(SecurityError::InvalidCredentials.to_string(), "invalid credentials");
    assert_eq!(SecurityError::HashError.to_string(), "could not hash password");
    assert_eq!(AuthError::InvalidCredentialsError.to_string(), "invalid credentials");
    assert_eq!(AuthError::JWTTokenCreationError.to_string(), "jwt token creation error");
    assert_eq!(UserError::CreateError.to_string(), "could not create user");
    let e = DatabaseError { message: "duplicate key".to_string() };
    assert_eq!(e.to_string(), "Database error");
}

#[test]
fn database_error_message() {
    assert_eq!(database_error(Some("duplicate key".to_string())).message, "duplicate key");
    assert_eq!(database_error(None).message, "DB Error");
}
