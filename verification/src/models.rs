use vstd::prelude::*;

use crate::clock::Timestamp;
use crate::roles::Role;

verus! {

/// A stored user. The id is the 128-bit value of the user's UUID; `password`
/// holds the PHC string of the user's password hash.
#[derive(Clone, Debug)]
pub struct User {
    pub id: u128,
    pub email: String,
    pub name: String,
    pub password: String,
    pub role: String,
    pub created_at: Timestamp,
    pub updated_at: Option<Timestamp>,
}

/// A user as shown to clients, without the password hash.
#[derive(Clone, Debug)]
pub struct UserResponse {
    pub id: u128,
    pub email: String,
    pub name: String,
    pub role: String,
    pub created_at: Timestamp,
    pub updated_at: Option<Timestamp>,
}

/// A request to create a user (also used for self-registration).
#[derive(Clone, Debug)]
pub struct UserCreateRequest {
    pub email: String,
    pub name: String,
    pub password: String,
    pub role: Option<Role>,
}

/// The status of a creation.
#[derive(Clone, Debug)]
pub struct UserCreateResponse {
    pub status: String,
}

/// A request to delete the user with the given email.
pub struct UserDeleteRequest {
    pub email: String,
    pub password: String,
}

/// A request to change the email, name and role of the user with the given id.
#[derive(Clone, Debug)]
pub struct UserUpdateRequest {
    pub id: u128,
    pub email: String,
    pub name: String,
    pub role: String,
}

/// A request to change the password of the user with the given id.
#[derive(Clone, Debug)]
pub struct PasswordUpdateRequest {
    pub id: u128,
    pub role: Role,
    pub current_password: String,
    pub new_password: String,
}

/// Login credentials.
#[derive(Clone, Debug)]
pub struct LoginUser {
    pub email: String,
    pub password: String,
}

} // verus!
