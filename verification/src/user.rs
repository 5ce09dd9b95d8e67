//! The user record as the core sees it: plain values only. Identifiers are
//! their canonical strings and instants are Unix timestamps in seconds; the
//! boundary converts to and from its own identifier and date types.

use vstd::prelude::*;
use crate::text::clone_opt_string;

verus! {

/// A stored user. `password_hash` is the credential — never a plaintext
/// password — and is absent for accounts created through an OAuth provider.
#[derive(Debug)]
pub struct User {
    pub id: String,
    pub email: String,
    pub name: String,
    pub password_hash: Option<String>,
    pub oauth_provider: Option<String>,
    pub oauth_id: Option<String>,
    pub created_at: i64,
    pub updated_at: i64,
}

/// The fields a caller supplies to register a user by password.
#[derive(Debug)]
pub struct CreateUser {
    pub email: String,
    pub name: String,
    pub password: String,
}

/// The outward view of a user: everything but the credential.
#[derive(Debug)]
pub struct UserResponse {
    pub id: String,
    pub email: String,
    pub name: String,
    pub created_at: i64,
}

/// A copy of a user record, equal to the original.
pub fn clone_user(u: &User) -> (r: User)
    ensures
        r == *u,
{
    User {
        id: u.id.clone(),
        email: u.email.clone(),
        name: u.name.clone(),
        password_hash: clone_opt_string(&u.password_hash),
        oauth_provider: clone_opt_string(&u.oauth_provider),
        oauth_id: clone_opt_string(&u.oauth_id),
        created_at: u.created_at,
        updated_at: u.updated_at,
    }
}

} // verus!
