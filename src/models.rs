//! Plain records of users, tokens and login input.
//!
//! Instants are whole seconds since the Unix epoch.

use vstd::prelude::*;

verus! {

/// A stored user. `password` holds the verification digest, never the
/// plaintext.
#[derive(Debug, Clone, PartialEq, Eq)]
pub struct User {
    pub id: i32,
    pub username: String,
    pub email: String,
    pub password: String,
    pub created_at: i64,
}

/// The body of a login request.
#[derive(Debug, Clone, PartialEq, Eq)]
pub struct LoginForm {
    pub username: String,
    pub password: String,
}

/// The public projection of a user, attached to a request once its token
/// has been validated.
#[derive(Debug, Clone, PartialEq, Eq)]
pub struct UserResponse {
    pub id: i32,
    pub username: String,
    pub email: String,
}

/// An issued bearer token and its owner.
#[derive(Debug, Clone, PartialEq, Eq)]
pub struct PersonalAccessToken {
    pub id: i32,
    pub user_id: i32,
    pub token: String,
    pub expires_at: i64,
    pub created_at: i64,
}

/// One field of a login form that fails its shape check.
#[derive(Debug, Clone, PartialEq, Eq)]
pub struct FieldError {
    pub field: String,
    pub message: String,
}

/// Why an authentication step did not succeed.
///
/// Unknown user and wrong password share `InvalidCredentials`; a missing,
/// expired or malformed token shares `InvalidOrExpiredToken`.
#[derive(Clone, Copy, Debug, PartialEq, Eq, Structural)]
pub enum AuthFailure {
    InvalidCredentials,
    InvalidOrExpiredToken,
    /// The user lookup could not be made.
    StorageUnavailable,
    /// A record could not be stored.
    StorageFailure,
    /// A token could not be deleted.
    RevocationFailed,
}

/// The public fields of `u`.
pub open spec fn profile_of(u: User) -> UserResponse {
    UserResponse { id: u.id, username: u.username, email: u.email }
}

impl User {
    /// A field-by-field copy.
    pub fn duplicate(&self) -> (r: User)
        ensures
            r == *self,
    {
        User {
            id: self.id,
            username: self.username.clone(),
            email: self.email.clone(),
            password: self.password.clone(),
            created_at: self.created_at,
        }
    }
}

impl PersonalAccessToken {
    /// A field-by-field copy.
    pub fn duplicate(&self) -> (r: PersonalAccessToken)
        ensures
            r == *self,
    {
        PersonalAccessToken {
            id: self.id,
            user_id: self.user_id,
            token: self.token.clone(),
            expires_at: self.expires_at,
            created_at: self.created_at,
        }
    }
}

impl From<User> for UserResponse {
    fn from(user: User) -> UserResponse {
        UserResponse { id: user.id, username: user.username, email: user.email }
    }
}

impl vstd::std_specs::convert::FromSpecImpl<User> for UserResponse {
    open spec fn obeys_from_spec() -> bool {
        true
    }

    open spec fn from_spec(v: User) -> UserResponse {
        profile_of(v)
    }
}

} // verus!
