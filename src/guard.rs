//! The guard in front of protected routes: which requests pass untouched,
//! which token a request presents, and what each failure answers.

use vstd::prelude::*;
use crate::models::{AuthFailure, UserResponse};

verus! {

/// The route that needs no token.
pub open spec fn login_path() -> Seq<char> {
    seq!['/', 'a', 'p', 'i', '/', 'l', 'o', 'g', 'i', 'n']
}

/// The scheme that opens an `Authorization` header carrying a bearer token.
pub open spec fn bearer_prefix() -> Seq<char> {
    seq!['B', 'e', 'a', 'r', 'e', 'r', ' ']
}

/// The token that an `Authorization` header value presents: what follows the
/// bearer prefix, if anything does.
pub open spec fn bearer_of(h: Seq<char>) -> Option<Seq<char>> {
    if h.len() > bearer_prefix().len() && h.subrange(0, bearer_prefix().len() as int)
        == bearer_prefix() {
        Some(h.subrange(bearer_prefix().len() as int, h.len() as int))
    } else {
        None
    }
}

/// The token that a request presents, given its `Authorization` header if it
/// has a readable one.
pub open spec fn presented_token(authorization: Option<&str>) -> Option<Seq<char>> {
    match authorization {
        Some(h) => bearer_of(h@),
        None => None,
    }
}

/// Whether `s` begins with the characters of `p`.
fn starts_with_chars(s: &str, p: &Vec<char>) -> (r: bool)
    ensures
        r == (p@.len() <= s@.len() && s@.subrange(0, p@.len() as int) == p@),
{
    let n = p.len();
    if s.unicode_len() < n {
        return false;
    }
    let mut i: usize = 0;
    while i < n
        invariant
            n == p@.len(),
            n <= s@.len(),
            i <= n,
            forall|k: int| 0 <= k < i ==> s@[k] == p@[k],
        decreases n - i,
    {
        if s.get_char(i) != p[i] {
            assert(s@.subrange(0, n as int)[i as int] != p@[i as int]);
            return false;
        }
        i = i + 1;
    }
    assert(s@.subrange(0, n as int) =~= p@);
    true
}

/// Whether `path` is the login route.
pub fn is_login_path(path: &str) -> (r: bool)
    ensures
        r == (path@ == login_path()),
{
    let p = vec!['/', 'a', 'p', 'i', '/', 'l', 'o', 'g', 'i', 'n'];
    assert(p@ =~= login_path());
    let r = path.unicode_len() == p.len() && starts_with_chars(path, &p);
    proof {
        if path@.len() == p@.len() {
            assert(path@.subrange(0, p@.len() as int) =~= path@);
        }
    }
    r
}

/// The bearer token of an `Authorization` header value; `None` where the
/// header is missing, uses another scheme, or carries no token.
pub fn extract_bearer_token(authorization: Option<&str>) -> (r: Option<String>)
    ensures
        r is None <==> presented_token(authorization) is None,
        r matches Some(t) ==> presented_token(authorization) == Some(t@),
{
    match authorization {
        None => None,
        Some(h) => {
            let p = vec!['B', 'e', 'a', 'r', 'e', 'r', ' '];
            assert(p@ =~= bearer_prefix());
            let n = h.unicode_len();
            if n > p.len() && starts_with_chars(h, &p) {
                let rest = h.substring_char(p.len(), n);
                Some(String::from_str(rest))
            } else {
                None
            }
        },
    }
}

/// The guard's first step for one request.
#[derive(Debug, Clone, PartialEq, Eq)]
pub enum GuardStep {
    /// The route is exempt: forward without an identity.
    Pass,
    /// Validate this token before deciding.
    Check(String),
    /// No token was presented: answer with an authentication failure.
    Reject,
}

/// Where a request to `path` with the given `Authorization` header goes
/// first. The login route passes; any other passes on to validation only
/// with a presented token, and is rejected without one.
pub fn guard_entry(path: &str, authorization: Option<&str>) -> (r: GuardStep)
    ensures
        path@ == login_path() ==> r is Pass,
        path@ != login_path() ==> match presented_token(authorization) {
            Some(t) => r matches GuardStep::Check(s) && s@ == t,
            None => r is Reject,
        },
{
    if is_login_path(path) {
        return GuardStep::Pass;
    }
    match extract_bearer_token(authorization) {
        Some(t) => GuardStep::Check(t),
        None => GuardStep::Reject,
    }
}

/// The guard's final state for a request whose token was checked.
#[derive(Debug, Clone, PartialEq, Eq)]
pub enum Verdict {
    /// Forward, with this identity attached.
    Authorized(UserResponse),
    /// Answer with an authentication failure; the handler never runs.
    Rejected,
}

/// Ends the guard for a checked token: a validated identity is attached and
/// the request forwarded; any failure rejects it.
pub fn guard_finish(validation: Result<UserResponse, AuthFailure>) -> (r: Verdict)
    ensures
        validation is Ok <==> r is Authorized,
        validation matches Ok(u) ==> r == Verdict::Authorized(u),
{
    match validation {
        Ok(u) => Verdict::Authorized(u),
        Err(_) => Verdict::Rejected,
    }
}

/// The HTTP status that answers a failure.
pub open spec fn status_of(f: AuthFailure) -> u16 {
    match f {
        AuthFailure::InvalidCredentials => 401,
        AuthFailure::InvalidOrExpiredToken => 401,
        AuthFailure::StorageUnavailable => 500,
        AuthFailure::StorageFailure => 500,
        AuthFailure::RevocationFailed => 500,
    }
}

/// The generic text sent to the client for a failure.
pub open spec fn message_of(f: AuthFailure) -> Seq<char> {
    match f {
        AuthFailure::InvalidCredentials => "Invalid credentials"@,
        AuthFailure::InvalidOrExpiredToken => "Invalid or missing token"@,
        AuthFailure::StorageUnavailable => "Database error"@,
        AuthFailure::StorageFailure => "Failed to create token"@,
        AuthFailure::RevocationFailed => "Failed to logout"@,
    }
}

impl AuthFailure {
    /// The HTTP status that answers this failure.
    pub fn status(&self) -> (r: u16)
        ensures
            r == status_of(*self),
    {
        match self {
            AuthFailure::InvalidCredentials => 401,
            AuthFailure::InvalidOrExpiredToken => 401,
            AuthFailure::StorageUnavailable => 500,
            AuthFailure::StorageFailure => 500,
            AuthFailure::RevocationFailed => 500,
        }
    }

    /// The text sent to the client; it never carries internal detail.
    pub fn message(&self) -> (r: String)
        ensures
            r@ == message_of(*self),
    {
        match self {
            AuthFailure::InvalidCredentials => String::from_str("Invalid credentials"),
            AuthFailure::InvalidOrExpiredToken => String::from_str("Invalid or missing token"),
            AuthFailure::StorageUnavailable => String::from_str("Database error"),
            AuthFailure::StorageFailure => String::from_str("Failed to create token"),
            AuthFailure::RevocationFailed => String::from_str("Failed to logout"),
        }
    }
}

/// The outcome of a logout from the outcome of deleting its token: deleting
/// a token that is absent is no failure.
pub fn revocation_outcome(deleted: Result<(), ()>) -> (r: Result<(), AuthFailure>)
    ensures
        deleted is Ok ==> r is Ok,
        deleted is Err ==> r == Err::<(), AuthFailure>(AuthFailure::RevocationFailed),
{
    match deleted {
        Ok(()) => Ok(()),
        Err(()) => Err(AuthFailure::RevocationFailed),
    }
}

} // verus!
