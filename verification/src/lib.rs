//! Verified core of a small authentication and user-management service.
//!
//! The library holds the service's rules: role parsing and authorization,
//! password hashing and verification, bearer-token extraction, the decisions
//! of each request handler, the mapping of rejections to HTTP replies, and
//! the helpers that prepare the database. Network and database I/O live in
//! the program around it.

pub mod auth;
pub mod clock;
pub mod db;
pub mod errors;
pub mod handlers;
pub mod models;
pub mod password;
pub mod rejection;
pub mod roles;
