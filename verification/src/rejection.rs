use vstd::prelude::*;

use crate::errors::{
    auth_error_text, security_error_text, user_error_text, AuthError, SecurityError, UserError,
};

verus! {

/// What a rejected request was rejected for, as far as the error reply
/// depends on it: whether no route matched at all, the first error of each of
/// the service's kinds that the rejection carries, and the display text of a
/// method-not-allowed rejection if it carries one.
pub struct RejectionInfo {
    pub not_found: bool,
    pub user_error: Option<UserError>,
    pub auth_error: Option<AuthError>,
    pub security_error: Option<SecurityError>,
    pub method_not_allowed: Option<String>,
}

/// The body of an error reply: a message and the status line.
#[derive(Clone, Debug)]
pub struct ErrorResponse {
    pub message: String,
    pub status: String,
}

/// The text `http::StatusCode` displays for `code`: the code and its canonical
/// reason.
pub uninterp spec fn status_line(code: u16) -> Seq<char>;

/// The status line of the codes the service replies with, as http's table of
/// canonical reasons gives them; any other code shows `status_line(code)`.
pub open spec fn status_text(code: u16) -> Seq<char> {
    if code == 400 {
        "400 Bad Request"@
    } else if code == 401 {
        "401 Unauthorized"@
    } else if code == 403 {
        "403 Forbidden"@
    } else if code == 404 {
        "404 Not Found"@
    } else if code == 405 {
        "405 Method Not Allowed"@
    } else if code == 500 {
        "500 Internal Server Error"@
    } else {
        status_line(code)
    }
}

/// Displays an HTTP status code with `warp::http::StatusCode::from_u16` and
/// `to_string`.
///
/// Claimed: the text is `status_line(code)`, which is `status_text(code)`: as http's table of canonical
/// reasons gives them, it reads "400 Bad Request", "401 Unauthorized",
/// "403 Forbidden", "404 Not Found", "405 Method Not Allowed" and
/// "500 Internal Server Error" for those codes. `from_u16` accepts every code
/// from 100 to 999.
#[verifier::external_body]
fn status_code_text(code: u16) -> (r: String)
    requires
        100 <= code < 1000,
    ensures
        r@ == status_line(code),
        r@ == status_text(code),
{
    match warp::http::StatusCode::from_u16(code) {
        Ok(status) => status.to_string(),
        Err(_) => String::new(),
    }
}

/// The generic message of a server error.
pub open spec fn internal_error_text() -> Seq<char> {
    "Internal Server Error"@
}

/// The status code replied for a rejection. The kinds are looked at in this
/// order: no route, user errors, auth errors, security errors, method not
/// allowed; anything else is a server error.
pub open spec fn error_code(info: RejectionInfo) -> u16 {
    if info.not_found {
        404
    } else if let Some(e) = info.user_error {
        match e {
            UserError::CreateError => 500,
            _ => 400,
        }
    } else if let Some(e) = info.auth_error {
        match e {
            AuthError::InvalidCredentialsError => 403,
            AuthError::NotAuthorizedError => 401,
            AuthError::JWTTokenError => 401,
            AuthError::JWTTokenCreationError => 500,
            _ => 400,
        }
    } else if let Some(e) = info.security_error {
        400
    } else if let Some(m) = info.method_not_allowed {
        405
    } else {
        500
    }
}

/// The message replied for a rejection, in the same order as `error_code`.
pub open spec fn error_message(info: RejectionInfo) -> Seq<char> {
    if info.not_found {
        "Not Found"@
    } else if let Some(e) = info.user_error {
        user_error_text(e)
    } else if let Some(e) = info.auth_error {
        match e {
            AuthError::JWTTokenCreationError => internal_error_text(),
            _ => auth_error_text(e),
        }
    } else if let Some(e) = info.security_error {
        match e {
            SecurityError::InvalidCredentials => "Authentication failed"@,
            _ => security_error_text(e),
        }
    } else if let Some(m) = info.method_not_allowed {
        m@
    } else {
        internal_error_text()
    }
}

/// The status code and body of the reply to a rejected request.
pub fn error_reply(info: &RejectionInfo) -> (r: (u16, ErrorResponse))
    ensures
        r.0 == error_code(*info),
        r.1.message@ == error_message(*info),
        r.1.status@ == status_text(r.0),
{
    let (code, message): (u16, String) = if info.not_found {
        (404, "Not Found".to_owned())
    } else if let Some(e) = &info.user_error {
        match e {
            UserError::CreateError => (500, e.to_string()),
            _ => (400, e.to_string()),
        }
    } else if let Some(e) = &info.auth_error {
        match e {
            AuthError::InvalidCredentialsError => (403, e.to_string()),
            AuthError::NotAuthorizedError => (401, e.to_string()),
            AuthError::JWTTokenError => (401, e.to_string()),
            AuthError::JWTTokenCreationError => (500, "Internal Server Error".to_owned()),
            _ => (400, e.to_string()),
        }
    } else if let Some(e) = &info.security_error {
        match e {
            SecurityError::InvalidCredentials => (400, "Authentication failed".to_owned()),
            _ => (400, e.to_string()),
        }
    } else if let Some(m) = &info.method_not_allowed {
        (405, m.clone())
    } else {
        (500, "Internal Server Error".to_owned())
    };
    let status = status_code_text(code);
    (code, ErrorResponse { message, status })
}

/// Every rejection is answered with one of six status codes, and a rejection
/// for which no route matched is answered 404 whatever else it carries.
pub proof fn lemma_error_codes(info: RejectionInfo)
    ensures
        error_code(info) == 400 || error_code(info) == 401 || error_code(info) == 403
            || error_code(info) == 404 || error_code(info) == 405 || error_code(info) == 500,
        info.not_found ==> error_code(info) == 404 && error_message(info) == "Not Found"@,
{
}

/// A user error is answered 500 when it is a failed creation and 400
/// otherwise, with the error's own text, unless no route matched.
pub proof fn lemma_user_error_replies(info: RejectionInfo, e: UserError)
    requires
        !info.not_found,
        info.user_error == Some(e),
    ensures
        e == UserError::CreateError ==> error_code(info) == 500 && status_text(error_code(info))
            == "500 Internal Server Error"@,
        e != UserError::CreateError ==> error_code(info) == 400 && status_text(error_code(info))
            == "400 Bad Request"@,
        error_message(info) == user_error_text(e),
{
}

/// Auth errors, when no route miss or user error comes first: invalid
/// credentials are 403, a bad or missing permission or token 401, a failed
/// token creation a 500 that hides its cause, and header errors 400.
pub proof fn lemma_auth_error_replies(info: RejectionInfo, e: AuthError)
    requires
        !info.not_found,
        info.user_error is None,
        info.auth_error == Some(e),
    ensures
        e == AuthError::InvalidCredentialsError ==> error_code(info) == 403 && status_text(
            error_code(info),
        ) == "403 Forbidden"@,
        (e == AuthError::NotAuthorizedError || e == AuthError::JWTTokenError) ==> error_code(info) == 401
            && status_text(error_code(info)) == "401 Unauthorized"@,
        e == AuthError::JWTTokenCreationError ==> error_code(info) == 500 && error_message(info)
            == internal_error_text(),
        (e == AuthError::NoAuthHeaderError || e == AuthError::InvalidAuthHeaderError) ==> error_code(info)
            == 400 && status_text(error_code(info)) == "400 Bad Request"@,
        e != AuthError::JWTTokenCreationError ==> error_message(info) == auth_error_text(e),
{
}

/// Security errors, when nothing above them is present, are answered 400; a
/// failed credential check says only "Authentication failed".
pub proof fn lemma_security_error_replies(info: RejectionInfo, e: SecurityError)
    requires
        !info.not_found,
        info.user_error is None,
        info.auth_error is None,
        info.security_error == Some(e),
    ensures
        error_code(info) == 400,
        status_text(error_code(info)) == "400 Bad Request"@,
        e == SecurityError::InvalidCredentials ==> error_message(info) == "Authentication failed"@,
        e == SecurityError::HashError ==> error_message(info) == security_error_text(e),
{
}

/// A rejection that carries none of the service's errors is answered 405 with
/// warp's text when the method was not allowed, and 500 otherwise.
pub proof fn lemma_other_rejection_replies(info: RejectionInfo)
    requires
        !info.not_found,
        info.user_error is None,
        info.auth_error is None,
        info.security_error is None,
    ensures
        info.method_not_allowed matches Some(m) ==> error_code(info) == 405 && error_message(info) == m@,
        info.method_not_allowed is None ==> error_code(info) == 500 && error_message(info)
            == internal_error_text(),
{
}

} // verus!
