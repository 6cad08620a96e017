use vstd::prelude::*;

use crate::errors::{DatabaseError, SecurityError, UserError};
use crate::models::{LoginUser, PasswordUpdateRequest, User, UserCreateRequest, UserDeleteRequest};
use crate::password::{
    check_password, get_hashed_pwd, is_scrypt_hash_of, looks_like_scrypt_phc, phc_parses,
    scrypt_accepts,
};
use crate::roles::Role;

verus! {

/// A JSON reply `{"message": ..., "status": ...}`; the message is left out
/// where it is `None`.
pub struct StatusReply {
    pub status: String,
    pub message: Option<String>,
}

/// Why a handler rejected a request.
#[derive(Clone, Copy, Debug, PartialEq, Eq, Structural)]
pub enum HandlerRejection {
    User(UserError),
    Security(SecurityError),
}

/// `reply` has the given status and message.
pub open spec fn reply_is(reply: StatusReply, status: Seq<char>, message: Option<Seq<char>>) -> bool {
    &&& reply.status@ == status
    &&& match (reply.message, message) {
        (None, None) => true,
        (Some(m), Some(n)) => m@ == n,
        _ => false,
    }
}

fn status_reply(status: &str, message: Option<&str>) -> (r: StatusReply)
    ensures
        reply_is(r, status@, match message { None => None, Some(m) => Some(m@) }),
{
    match message {
        None => StatusReply { status: status.to_owned(), message: None },
        Some(m) => StatusReply { status: status.to_owned(), message: Some(m.to_owned()) },
    }
}

/// The next step of a creation or registration once the email was looked up.
pub enum NewUserStep {
    /// Answer at once.
    Reply(StatusReply),
    /// Store this user.
    Create(UserCreateRequest),
}

/// `created` is the user to store for the request `req`: same email and name,
/// the role `User` whatever was asked, and the password replaced by its scrypt
/// hash, which verifies against the requested password.
pub open spec fn is_new_user_for(req: UserCreateRequest, created: UserCreateRequest) -> bool {
    &&& created.email@ == req.email@
    &&& created.name@ == req.name@
    &&& created.role == Some(Role::User)
    &&& is_scrypt_hash_of(req.password@, created.password@)
    &&& looks_like_scrypt_phc(created.password@)
    &&& (!looks_like_scrypt_phc(req.password@) ==> created.password@ != req.password@)
    &&& phc_parses(created.password@)
    &&& scrypt_accepts(req.password@, created.password@)
}

/// The step after a lookup that found `existing` under the requested email.
pub open spec fn new_user_step_ok(
    req: UserCreateRequest,
    existing: Option<User>,
    conflict: Seq<char>,
    r: NewUserStep,
) -> bool {
    match existing {
        Some(_) => r matches NewUserStep::Reply(rep) && reply_is(rep, "error"@, Some(conflict)),
        None => r matches NewUserStep::Create(c) && is_new_user_for(req, c),
    }
}

/// The user to store for the request `user` once its password was hashed:
/// same email and name, the role `User` whatever was asked, and the hash in
/// place of the password.
pub fn new_user_record(user: UserCreateRequest, hashed_password: String) -> (r: UserCreateRequest)
    ensures
        r.email@ == user.email@,
        r.name@ == user.name@,
        r.role == Some(Role::User),
        r.password@ == hashed_password@,
{
    UserCreateRequest { email: user.email, name: user.name, password: hashed_password, role: Some(Role::User) }
}

fn new_user_after_lookup(user: UserCreateRequest, existing: Option<User>, conflict: &str) -> (r: NewUserStep)
    ensures
        new_user_step_ok(user, existing, conflict@, r),
{
    match existing {
        Some(_) => NewUserStep::Reply(status_reply("error", Some(conflict))),
        None => {
            let hashed = get_hashed_pwd(user.password.as_str());
            NewUserStep::Create(new_user_record(user, hashed))
        },
    }
}

/// The message of a registration under an email that is already registered.
pub open spec fn registration_conflict_text() -> Seq<char> {
    "Unable to complete registration, email already registered"@
}

/// The message of a creation under an email that already exists.
pub open spec fn creation_conflict_text() -> Seq<char> {
    "You can't create a user as this email already exists"@
}

/// Self-registration, once the requested email was looked up: an email that is
/// already registered is answered with an error and nothing is stored;
/// otherwise the user is stored with role `User` and a hashed password.
pub fn register_user_after_lookup(user: UserCreateRequest, existing: Option<User>) -> (r: NewUserStep)
    ensures
        new_user_step_ok(user, existing, registration_conflict_text(), r),
{
    new_user_after_lookup(user, existing, "Unable to complete registration, email already registered")
}

/// Creation of a user, once the requested email was looked up: as
/// registration, with its own message for an email that exists.
pub fn create_user_after_lookup(user: UserCreateRequest, existing: Option<User>) -> (r: NewUserStep)
    ensures
        new_user_step_ok(user, existing, creation_conflict_text(), r),
{
    new_user_after_lookup(user, existing, "You can't create a user as this email already exists")
}

/// The answer once the new user was stored (or not): success, or
/// `UserError::CreateError` where the database refused it.
pub fn new_user_created(result: Result<u64, DatabaseError>) -> (r: Result<StatusReply, HandlerRejection>)
    ensures
        match result {
            Ok(_) => r matches Ok(rep) && reply_is(rep, "success"@, None),
            Err(_) => r == Err::<StatusReply, HandlerRejection>(HandlerRejection::User(UserError::CreateError)),
        },
{
    match result {
        Ok(_) => Ok(status_reply("success", None)),
        Err(_) => Err(HandlerRejection::User(UserError::CreateError)),
    }
}

/// The outcome of a login once the email was looked up (`found`). `None` where
/// the stored password hash cannot be read; otherwise the user to issue a
/// token to, `FindError` for an unknown email, or `InvalidCredentials` for a
/// wrong password.
pub open spec fn login_outcome(
    user: LoginUser,
    found: Option<User>,
    r: Option<Result<User, HandlerRejection>>,
) -> bool {
    match found {
        None => r == Some(Err::<User, HandlerRejection>(HandlerRejection::User(UserError::FindError))),
        Some(u) => if !phc_parses(u.password@) {
            r is None
        } else if scrypt_accepts(user.password@, u.password@) {
            r == Some(Ok::<User, HandlerRejection>(u))
        } else {
            r == Some(Err::<User, HandlerRejection>(HandlerRejection::Security(SecurityError::InvalidCredentials)))
        },
    }
}

/// Login, once the email was looked up: a token is owed only to a known user
/// whose password verifies.
pub fn login_after_lookup(user: &LoginUser, found: Option<User>) -> (r: Option<Result<User, HandlerRejection>>)
    ensures
        login_outcome(*user, found, r),
{
    match found {
        None => Some(Err(HandlerRejection::User(UserError::FindError))),
        Some(u) => match check_password(user.password.as_str(), u.password.as_str()) {
            None => None,
            Some(true) => Some(Ok(u)),
            Some(false) => Some(Err(HandlerRejection::Security(SecurityError::InvalidCredentials))),
        },
    }
}

/// The next step of a deletion once the email was looked up.
pub enum DeleteStep {
    /// Answer at once.
    Reply(StatusReply),
    /// Delete the user with this email.
    Delete(String),
}

/// Deletion of a user, once the email was looked up: an unknown email is
/// answered with an error (with the message that the service uses for it);
/// otherwise the user with that email is deleted.
pub fn delete_user_after_lookup(user: UserDeleteRequest, found: Option<User>) -> (r: DeleteStep)
    ensures
        match found {
            None => r matches DeleteStep::Reply(rep) && reply_is(rep, "error"@, Some(creation_conflict_text())),
            Some(_) => r matches DeleteStep::Delete(email) && email@ == user.email@,
        },
{
    match found {
        None => DeleteStep::Reply(
            status_reply("error", Some("You can't create a user as this email already exists")),
        ),
        Some(_) => DeleteStep::Delete(user.email),
    }
}

/// The answer once a user was deleted.
pub fn user_deleted_reply() -> (r: StatusReply)
    ensures
        reply_is(r, "success"@, Some("User deleted"@)),
{
    status_reply("success", Some("User deleted"))
}

/// The answer once all users were deleted.
pub fn all_users_deleted_reply() -> (r: StatusReply)
    ensures
        reply_is(r, "success"@, Some("All users deleted"@)),
{
    status_reply("success", Some("All users deleted"))
}

/// The answer once a user was updated.
pub fn user_updated_reply() -> (r: StatusReply)
    ensures
        reply_is(r, "success"@, Some("User updated"@)),
{
    status_reply("success", Some("User updated"))
}

/// The answer once a password was updated.
pub fn password_updated_reply() -> (r: StatusReply)
    ensures
        reply_is(r, "success"@, Some("Password updated"@)),
{
    status_reply("success", Some("Password updated"))
}

/// `updated` is `found` with only its password replaced, by a scrypt hash that
/// verifies against `new_password`.
pub open spec fn is_password_change(found: User, new_password: Seq<char>, updated: User) -> bool {
    &&& updated.id == found.id
    &&& updated.email@ == found.email@
    &&& updated.name@ == found.name@
    &&& updated.role@ == found.role@
    &&& updated.created_at == found.created_at
    &&& updated.updated_at == found.updated_at
    &&& is_scrypt_hash_of(new_password, updated.password@)
    &&& looks_like_scrypt_phc(updated.password@)
    &&& (!looks_like_scrypt_phc(new_password) ==> updated.password@ != new_password)
    &&& phc_parses(updated.password@)
    &&& scrypt_accepts(new_password, updated.password@)
}

/// `found` with its password replaced by `new_hash` and nothing else changed.
pub fn password_changed(found: User, new_hash: String) -> (r: User)
    ensures
        r.id == found.id,
        r.email@ == found.email@,
        r.name@ == found.name@,
        r.role@ == found.role@,
        r.created_at == found.created_at,
        r.updated_at == found.updated_at,
        r.password@ == new_hash@,
{
    User { password: new_hash, ..found }
}

/// The outcome of a password change once the user was looked up by id.
pub open spec fn password_change_outcome(
    req: PasswordUpdateRequest,
    found: Option<User>,
    r: Option<Result<User, HandlerRejection>>,
) -> bool {
    match found {
        None => r == Some(Err::<User, HandlerRejection>(HandlerRejection::User(UserError::UpdateError))),
        Some(u) => if !phc_parses(u.password@) {
            r is None
        } else if scrypt_accepts(req.current_password@, u.password@) {
            r matches Some(Ok(updated)) && is_password_change(u, req.new_password@, updated)
        } else {
            r == Some(Err::<User, HandlerRejection>(HandlerRejection::Security(SecurityError::InvalidCredentials)))
        },
    }
}

/// Password change, once the user was looked up by id: `UpdateError` for an
/// unknown id, `InvalidCredentials` where the current password does not verify,
/// `None` where the stored hash cannot be read; otherwise the user to store,
/// with the new password hashed and nothing else changed.
pub fn update_user_pwd_after_lookup(
    pwd_req: PasswordUpdateRequest,
    found: Option<User>,
) -> (r: Option<Result<User, HandlerRejection>>)
    ensures
        password_change_outcome(pwd_req, found, r),
{
    match found {
        None => Some(Err(HandlerRejection::User(UserError::UpdateError))),
        Some(candidate) => match check_password(pwd_req.current_password.as_str(), candidate.password.as_str()) {
            None => None,
            Some(false) => Some(Err(HandlerRejection::Security(SecurityError::InvalidCredentials))),
            Some(true) => {
                let hash = get_hashed_pwd(pwd_req.new_password.as_str());
                Some(Ok(password_changed(candidate, hash)))
            },
        },
    }
}

/// A request under an email that is not yet registered stores a user with the
/// requested email and name, the role `User` whatever role the request asked
/// for, and a password hash that verifies against the requested password and
/// is not the password itself (unless the password already has the form of a
/// scrypt PHC string).
pub proof fn lemma_new_user_is_plain_user(
    req: UserCreateRequest,
    conflict: Seq<char>,
    r: NewUserStep,
)
    requires
        new_user_step_ok(req, None, conflict, r),
    ensures
        r matches NewUserStep::Create(c) && {
            &&& c.role == Some(Role::User)
            &&& c.email@ == req.email@
            &&& c.name@ == req.name@
            &&& is_scrypt_hash_of(req.password@, c.password@)
            &&& scrypt_accepts(req.password@, c.password@)
            &&& (!looks_like_scrypt_phc(req.password@) ==> c.password@ != req.password@)
        },
{
}

/// A request under an email that is already registered stores nothing.
pub proof fn lemma_registered_email_stores_nothing(
    req: UserCreateRequest,
    existing: User,
    conflict: Seq<char>,
    r: NewUserStep,
)
    requires
        new_user_step_ok(req, Some(existing), conflict, r),
    ensures
        r is Reply,
{
}

/// Two requests that differ only in the role they ask for store users with
/// the same role.
pub proof fn lemma_stored_role_ignores_requested_role(
    a: UserCreateRequest,
    b: UserCreateRequest,
    conflict: Seq<char>,
    ra: NewUserStep,
    rb: NewUserStep,
)
    requires
        new_user_step_ok(a, None, conflict, ra),
        new_user_step_ok(b, None, conflict, rb),
    ensures
        ra matches NewUserStep::Create(ca) && rb matches NewUserStep::Create(cb) && ca.role == cb.role,
{
}

/// When the current password verifies, the user stored afterwards keeps every
/// field but the password, whose new hash verifies against the new password;
/// the user is looked up by the request's id.
pub proof fn lemma_password_change_takes_new_password(
    req: PasswordUpdateRequest,
    found: User,
    r: Option<Result<User, HandlerRejection>>,
)
    requires
        password_change_outcome(req, Some(found), r),
        phc_parses(found.password@),
        scrypt_accepts(req.current_password@, found.password@),
    ensures
        r matches Some(Ok(updated)) && {
            &&& scrypt_accepts(req.new_password@, updated.password@)
            &&& is_scrypt_hash_of(req.new_password@, updated.password@)
            &&& phc_parses(updated.password@)
            &&& updated.id == found.id
            &&& updated.email@ == found.email@
            &&& updated.name@ == found.name@
            &&& updated.role@ == found.role@
            &&& updated.created_at == found.created_at
            &&& updated.updated_at == found.updated_at
        },
{
}

/// When the current password does not verify, nothing is stored and the
/// request is refused with `InvalidCredentials`.
pub proof fn lemma_wrong_password_changes_nothing(
    req: PasswordUpdateRequest,
    found: User,
    r: Option<Result<User, HandlerRejection>>,
)
    requires
        password_change_outcome(req, Some(found), r),
        phc_parses(found.password@),
        !scrypt_accepts(req.current_password@, found.password@),
    ensures
        r == Some(Err::<User, HandlerRejection>(HandlerRejection::Security(SecurityError::InvalidCredentials))),
{
}

/// Login issues a token only to a known user whose stored hash accepts the
/// given password.
pub proof fn lemma_login_needs_matching_password(
    user: LoginUser,
    found: Option<User>,
    r: Option<Result<User, HandlerRejection>>,
)
    requires
        login_outcome(user, found, r),
        r matches Some(Ok(_)),
    ensures
        found matches Some(u) && r == Some(Ok::<User, HandlerRejection>(u)) && phc_parses(u.password@)
            && scrypt_accepts(user.password@, u.password@),
{
}

/// The value of the UUID that `uuid::Uuid::parse_str` reads from `s`, if it
/// reads one.
pub uninterp spec fn uuid_value(s: Seq<char>) -> Option<u128>;

/// Reads a UUID with `uuid::Uuid::parse_str`, as its 128-bit value.
///
/// Claimed: the result is `uuid_value(s)`.
#[verifier::external_body]
fn parse_uuid(s: &str) -> (r: Option<u128>)
    ensures
        r == uuid_value(s@),
{
    match uuid::Uuid::parse_str(s) {
        Ok(id) => Some(id.as_u128()),
        Err(_) => None,
    }
}

/// Reads the user id in a request path; `None` where it is not a UUID.
pub fn parse_user_id(user_id: &str) -> (r: Option<u128>)
    ensures
        r == uuid_value(user_id@),
{
    parse_uuid(user_id)
}

} // verus!
