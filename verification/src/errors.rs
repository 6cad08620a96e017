use vstd::prelude::*;

verus! {

/// Failures of password checks.
#[derive(Clone, Copy, Debug, PartialEq, Eq, Structural)]
pub enum SecurityError {
    InvalidCredentials,
    HashError,
}

/// Failures of authentication and authorization.
#[derive(Clone, Copy, Debug, PartialEq, Eq, Structural)]
pub enum AuthError {
    InvalidCredentialsError,
    JWTTokenError,
    JWTTokenCreationError,
    NoAuthHeaderError,
    InvalidAuthHeaderError,
    NotAuthorizedError,
}

/// Failures of operations on users.
#[derive(Clone, Copy, Debug, PartialEq, Eq, Structural)]
pub enum UserError {
    CreateError,
    FindError,
    UpdateError,
    DeleteError,
}

/// A failure reported by the database, with its message.
#[derive(Clone, Debug)]
pub struct DatabaseError {
    pub message: String,
}

/// The display text of a `SecurityError`.
pub open spec fn security_error_text(e: SecurityError) -> Seq<char> {
    match e {
        SecurityError::InvalidCredentials => "invalid credentials"@,
        SecurityError::HashError => "could not hash password"@,
    }
}

/// The display text of an `AuthError`.
pub open spec fn auth_error_text(e: AuthError) -> Seq<char> {
    match e {
        AuthError::InvalidCredentialsError => "invalid credentials"@,
        AuthError::JWTTokenError => "jwt token not valid"@,
        AuthError::JWTTokenCreationError => "jwt token creation error"@,
        AuthError::NoAuthHeaderError => "authorization header required"@,
        AuthError::InvalidAuthHeaderError => "invalid auth header"@,
        AuthError::NotAuthorizedError => "permission denied"@,
    }
}

/// The display text of a `UserError`.
pub open spec fn user_error_text(e: UserError) -> Seq<char> {
    match e {
        UserError::CreateError => "could not create user"@,
        UserError::FindError => "could not find user"@,
        UserError::UpdateError => "could not update user"@,
        UserError::DeleteError => "could not delete user"@,
    }
}

impl SecurityError {
    /// The error's display text.
    pub fn to_string(&self) -> (r: String)
        ensures
            r@ == security_error_text(*self),
    {
        match self {
            SecurityError::InvalidCredentials => "invalid credentials".to_owned(),
            SecurityError::HashError => "could not hash password".to_owned(),
        }
    }
}

impl AuthError {
    /// The error's display text.
    pub fn to_string(&self) -> (r: String)
        ensures
            r@ == auth_error_text(*self),
    {
        match self {
            AuthError::InvalidCredentialsError => "invalid credentials".to_owned(),
            AuthError::JWTTokenError => "jwt token not valid".to_owned(),
            AuthError::JWTTokenCreationError => "jwt token creation error".to_owned(),
            AuthError::NoAuthHeaderError => "authorization header required".to_owned(),
            AuthError::InvalidAuthHeaderError => "invalid auth header".to_owned(),
            AuthError::NotAuthorizedError => "permission denied".to_owned(),
        }
    }
}

impl UserError {
    /// The error's display text.
    pub fn to_string(&self) -> (r: String)
        ensures
            r@ == user_error_text(*self),
    {
        match self {
            UserError::CreateError => "could not create user".to_owned(),
            UserError::FindError => "could not find user".to_owned(),
            UserError::UpdateError => "could not update user".to_owned(),
            UserError::DeleteError => "could not delete user".to_owned(),
        }
    }
}

impl DatabaseError {
    /// The error's display text, which never shows the database's message.
    pub fn to_string(&self) -> (r: String)
        ensures
            r@ == "Database error"@,
    {
        "Database error".to_owned()
    }
}

/// The message a failed insert reports: the database's own message where the
/// failure came from the database, "DB Error" otherwise.
pub fn database_error(db_message: Option<String>) -> (r: DatabaseError)
    ensures
        r.message@ == match db_message {
            Some(m) => m@,
            None => "DB Error"@,
        },
{
    match db_message {
        Some(m) => DatabaseError { message: m },
        None => DatabaseError { message: "DB Error".to_owned() },
    }
}

#[verifier::external_type_specification]
#[verifier::external_body]
pub struct ExSqlxError(sqlx::Error);

/// Any database failure met while checking credentials counts as invalid
/// credentials.
impl From<sqlx::Error> for AuthError {
    fn from(_err: sqlx::Error) -> (r: AuthError) {
        AuthError::InvalidCredentialsError
    }
}

impl vstd::std_specs::convert::FromSpecImpl<sqlx::Error> for AuthError {
    open spec fn obeys_from_spec() -> bool {
        true
    }

    open spec fn from_spec(v: sqlx::Error) -> AuthError {
        AuthError::InvalidCredentialsError
    }
}

} // verus!
