//! Login form checks and password verification.

use vstd::prelude::*;
use crate::models::{AuthFailure, FieldError, LoginForm, User};

verus! {

/// Shortest accepted username, in characters.
pub const USERNAME_MIN: u64 = 3;

/// Longest accepted username, in characters.
pub const USERNAME_MAX: u64 = 20;

/// Shortest accepted password, in characters.
pub const PASSWORD_MIN: u64 = 6;

pub open spec fn username_ok(s: Seq<char>) -> bool {
    USERNAME_MIN <= s.len() <= USERNAME_MAX
}

pub open spec fn password_ok(s: Seq<char>) -> bool {
    PASSWORD_MIN <= s.len()
}

/// Relies on validator's `ValidateLength::validate_length` for `String`:
/// the length is the count of chars, and each bound given must hold.
#[verifier::external_body]
fn length_within(s: &String, min: Option<u64>, max: Option<u64>) -> (r: bool)
    ensures
        r == ((min is None || min->0 <= s@.len()) && (max is None || s@.len() <= max->0)),
{
    validator::ValidateLength::<u64>::validate_length(s, min, max, None)
}

impl LoginForm {
    /// Checks the shape of both fields, reporting each one that fails, the
    /// username first.
    pub fn validate(&self) -> (r: Result<(), Vec<FieldError>>)
        ensures
            r is Ok <==> (username_ok(self.username@) && password_ok(self.password@)),
            r is Err ==> {
                let es = r->Err_0@;
                &&& es.len() == (if username_ok(self.username@) { 0int } else { 1int }) + (
                if password_ok(self.password@) {
                    0int
                } else {
                    1int
                })
                &&& !username_ok(self.username@) ==> es[0].field@ == "username"@
                &&& !password_ok(self.password@) ==> es[es.len() - 1].field@ == "password"@
            },
    {
        let mut errors: Vec<FieldError> = Vec::new();
        if !length_within(&self.username, Some(USERNAME_MIN), Some(USERNAME_MAX)) {
            errors.push(
                FieldError {
                    field: String::from_str("username"),
                    message: String::from_str("Username must be between 3 and 20 characters"),
                },
            );
        }
        if !length_within(&self.password, Some(PASSWORD_MIN), None) {
            errors.push(
                FieldError {
                    field: String::from_str("password"),
                    message: String::from_str("Password must be at least 6 characters"),
                },
            );
        }
        if errors.len() == 0 {
            Ok(())
        } else {
            Err(errors)
        }
    }
}

/// The lowercase hex MD5 digest of the UTF-8 encoding of a string.
pub uninterp spec fn md5_hex_of(s: Seq<char>) -> Seq<char>;

/// Relies on md5::compute over the UTF-8 bytes of `s`, printed with the
/// digest's `LowerHex` impl: two lowercase hex digits for each of 16 bytes.
#[verifier::external_body]
fn md5_hex(s: &str) -> (r: String)
    ensures
        r@ == md5_hex_of(s@),
        r@.len() == 32,
{
    format!("{:x}", md5::compute(s))
}

/// The digest stored for a user whose password is `password`.
pub fn hash_password(password: &str) -> (r: String)
    ensures
        r@ == md5_hex_of(password@),
        r@.len() == 32,
{
    md5_hex(password)
}

/// Equality of two strings whose running time depends on their lengths
/// only, not on where they first differ.
pub fn digests_match(a: &str, b: &str) -> (r: bool)
    ensures
        r == (a@ == b@),
{
    let n = a.unicode_len();
    if n != b.unicode_len() {
        return false;
    }
    let mut same = true;
    let mut i: usize = 0;
    while i < n
        invariant
            n == a@.len(),
            n == b@.len(),
            i <= n,
            same == (forall|k: int| 0 <= k < i ==> a@[k] == b@[k]),
        decreases n - i,
    {
        let differs = a.get_char(i) != b.get_char(i);
        same = same && !differs;
        i = i + 1;
    }
    proof {
        if same {
            assert(a@ =~= b@);
        }
    }
    same
}

/// Whether `u` is the user that `username` and `password` identify.
pub open spec fn credentials_match(u: User, username: Seq<char>, password: Seq<char>) -> bool {
    u.username@ == username && u.password@ == md5_hex_of(password)
}

/// Decides a login from the outcome of looking the user up by name: the
/// found user if the name and the password's digest match it,
/// `InvalidCredentials` if no user was found or the password is wrong, and
/// `StorageUnavailable` if the lookup failed.
pub fn check_credentials(lookup: Result<Option<User>, ()>, username: &str, password: &str) -> (r:
    Result<User, AuthFailure>)
    ensures
        lookup is Err ==> r == Err::<User, AuthFailure>(AuthFailure::StorageUnavailable),
        lookup is Ok ==> match lookup->Ok_0 {
            Some(u) => if credentials_match(u, username@, password@) {
                r == Ok::<User, AuthFailure>(u)
            } else {
                r == Err::<User, AuthFailure>(AuthFailure::InvalidCredentials)
            },
            None => r == Err::<User, AuthFailure>(AuthFailure::InvalidCredentials),
        },
{
    match lookup {
        Err(()) => Err(AuthFailure::StorageUnavailable),
        Ok(None) => Err(AuthFailure::InvalidCredentials),
        Ok(Some(u)) => {
            let digest = hash_password(password);
            let name_ok = digests_match(u.username.as_str(), username);
            let hash_ok = digests_match(u.password.as_str(), digest.as_str());
            if name_ok && hash_ok {
                Ok(u)
            } else {
                Err(AuthFailure::InvalidCredentials)
            }
        },
    }
}

} // verus!
