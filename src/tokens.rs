//! Token grants and the decision whether a presented token is live.

use vstd::prelude::*;
use crate::models::{profile_of, AuthFailure, PersonalAccessToken, User, UserResponse};

verus! {

/// How long a token stays valid after issue: seven days, in seconds.
pub const TOKEN_LIFETIME: i64 = 604800;

/// The latest issue instant whose expiry is still representable.
pub const LAST_ISSUE_INSTANT: i64 = 9223372036854171007;

/// Relies on uuid's `Uuid::new_v4` (random) and its `Display`, which writes
/// the hyphenated form of 36 characters.
#[verifier::external_body]
fn random_token_string() -> (r: String)
    ensures
        r@.len() == 36,
{
    uuid::Uuid::new_v4().to_string()
}

/// Relies on chrono's `Utc::now` and `DateTime::timestamp`: the server's
/// clock in whole seconds since the Unix epoch. Nothing is known of the value.
#[verifier::external_body]
pub(crate) fn now_seconds() -> (r: i64) {
    chrono::Utc::now().timestamp()
}

/// The grant that an issue at `now` of `token` to `user_id` records. Its `id`
/// is left 0 for the store to assign.
pub open spec fn grant_spec(user_id: i32, token: String, now: i64) -> PersonalAccessToken {
    PersonalAccessToken {
        id: 0,
        user_id,
        token,
        expires_at: (now + TOKEN_LIFETIME) as i64,
        created_at: now,
    }
}

/// Builds the grant of `token` to `user_id` at `now`, or `None` where its
/// expiry would not be representable.
pub fn grant_at(user_id: i32, token: String, now: i64) -> (r: Option<PersonalAccessToken>)
    ensures
        now <= LAST_ISSUE_INSTANT ==> r == Some(grant_spec(user_id, token, now)),
        now > LAST_ISSUE_INSTANT ==> r is None,
{
    if now > LAST_ISSUE_INSTANT {
        return None;
    }
    Some(
        PersonalAccessToken {
            id: 0,
            user_id,
            token,
            expires_at: now + TOKEN_LIFETIME,
            created_at: now,
        },
    )
}

/// A fresh grant for `user_id`: a random token string, issued now. `None`
/// only where the clock is past `LAST_ISSUE_INSTANT`.
pub fn new_grant(user_id: i32) -> (r: Option<PersonalAccessToken>)
    ensures
        r matches Some(g) ==> {
            &&& g.id == 0
            &&& g.user_id == user_id
            &&& g.token@.len() == 36
            &&& g.created_at <= LAST_ISSUE_INSTANT
            &&& g.expires_at == g.created_at + TOKEN_LIFETIME
        },
{
    let token = random_token_string();
    let now = now_seconds();
    grant_at(user_id, token, now)
}

/// Whether a grant expiring at `expires_at` is live at `now`.
pub open spec fn is_live(expires_at: i64, now: i64) -> bool {
    expires_at > now
}

/// Decides a presented token from the outcome of looking it up together with
/// its owner: the owner's public fields if the record is for this token
/// string and owner and is live at `now`; `InvalidOrExpiredToken` for a
/// missing, foreign, expired or failed lookup alike.
pub fn check_token(lookup: Result<Option<(PersonalAccessToken, User)>, ()>, token: &str, now: i64) -> (r:
    Result<UserResponse, AuthFailure>)
    ensures
        r == (match lookup {
            Ok(Some((t, u))) => if t.token@ == token@ && t.user_id == u.id && is_live(
                t.expires_at,
                now,
            ) {
                Ok(profile_of(u))
            } else {
                Err(AuthFailure::InvalidOrExpiredToken)
            },
            _ => Err(AuthFailure::InvalidOrExpiredToken),
        }),
{
    match lookup {
        Ok(Some((t, u))) => {
            if crate::credentials::digests_match(t.token.as_str(), token) && t.user_id == u.id
                && t.expires_at > now {
                Ok(UserResponse::from(u))
            } else {
                Err(AuthFailure::InvalidOrExpiredToken)
            }
        },
        _ => Err(AuthFailure::InvalidOrExpiredToken),
    }
}

} // verus!
