//! Properties that relate the store's operations to one another.

use vstd::prelude::*;
use crate::credentials::credentials_match;
use crate::models::{profile_of, AuthFailure, PersonalAccessToken};
use crate::store::{holds_token, issued, live_grant, login_result, revoked, validation, StoreModel};
use crate::tokens::TOKEN_LIFETIME;

verus! {

/// A login with the name and password of a stored user yields that user;
/// any other login yields `InvalidCredentials`, the same value whether or not
/// the name is known.
pub proof fn login_finds_exactly_the_matching_user(
    m: StoreModel,
    username: Seq<char>,
    password: Seq<char>,
)
    requires
        m.wf(),
    ensures
        forall|j: int|
            0 <= j < m.users.len() && credentials_match(#[trigger] m.users[j], username, password)
                ==> login_result(m, username, password) == Ok::<_, AuthFailure>(m.users[j]),
        !(exists|j: int|
            0 <= j < m.users.len() && credentials_match(#[trigger] m.users[j], username, password))
            ==> login_result(m, username, password) == Err::<crate::models::User, _>(
            AuthFailure::InvalidCredentials,
        ),
{
    assert forall|j: int|
        0 <= j < m.users.len() && credentials_match(
            #[trigger] m.users[j],
            username,
            password,
        ) implies login_result(m, username, password) == Ok::<_, AuthFailure>(m.users[j]) by {
        let k = choose|k: int|
            0 <= k < m.users.len() && credentials_match(#[trigger] m.users[k], username, password);
        assert(m.users[k].username@ == m.users[j].username@);
        assert(k == j);
    }
}

/// Issuing keeps the store well formed, and the issued string differs from
/// every string held before: every token the store holds is distinct.
pub proof fn issue_keeps_tokens_distinct(
    before: StoreModel,
    user_id: i32,
    t: PersonalAccessToken,
    after: StoreModel,
)
    requires
        before.wf(),
        issued(before, user_id, t, after),
    ensures
        after.wf(),
        forall|k: int| 0 <= k < before.tokens.len() ==> (#[trigger] before.tokens[k]).token@ != t.token@,
{
    let n = before.tokens.len() as int;
    assert(after.tokens[n] == t);
    assert forall|i: int, j: int|
        0 <= i < after.tokens.len() && 0 <= j < after.tokens.len() && i != j implies (
        #[trigger] after.tokens[i]).token@ != (#[trigger] after.tokens[j]).token@ by {
        if i == n {
            assert(before.tokens[j] == after.tokens[j]);
        } else if j == n {
            assert(before.tokens[i] == after.tokens[i]);
        } else {
            assert(before.tokens[i] == after.tokens[i]);
            assert(before.tokens[j] == after.tokens[j]);
        }
    }
}

/// An issued token expires exactly one lifetime after its issue, and
/// validating it at its issue instant yields its owner's public fields.
pub proof fn issued_token_validates(
    before: StoreModel,
    user_id: i32,
    t: PersonalAccessToken,
    after: StoreModel,
)
    requires
        before.wf(),
        issued(before, user_id, t, after),
    ensures
        t.expires_at == t.created_at + TOKEN_LIFETIME,
        exists|j: int|
            0 <= j < before.users.len() && (#[trigger] before.users[j]).id == user_id && validation(
                after,
                t.token@,
                t.created_at,
            ) == Ok::<_, AuthFailure>(profile_of(before.users[j])),
{
    issue_keeps_tokens_distinct(before, user_id, t, after);
    let n = before.tokens.len() as int;
    let j = choose|j: int| 0 <= j < before.users.len() && (#[trigger] before.users[j]).id == user_id;
    assert(after.tokens[n] == t);
    assert(live_grant(after, t.token@, t.created_at, n, j));
    let (a, b) = choose|a: int, b: int| live_grant(after, t.token@, t.created_at, a, b);
    assert(a == n);
    assert(b == j);
}

/// A held token whose expiry is at or before `now` fails validation at
/// `now`; one whose expiry is a second after `now` passes, yielding its
/// owner's public fields.
pub proof fn expiry_boundary(m: StoreModel, i: int, j: int, now: i64)
    requires
        m.wf(),
        0 <= i < m.tokens.len(),
        0 <= j < m.users.len(),
        m.tokens[i].user_id == m.users[j].id,
    ensures
        m.tokens[i].expires_at <= now ==> validation(m, m.tokens[i].token@, now)
            == Err::<crate::models::UserResponse, _>(AuthFailure::InvalidOrExpiredToken),
        m.tokens[i].expires_at == now + 1 ==> validation(m, m.tokens[i].token@, now)
            == Ok::<_, AuthFailure>(profile_of(m.users[j])),
{
    let tok = m.tokens[i].token@;
    if exists|a: int, b: int| live_grant(m, tok, now, a, b) {
        let (a, b) = choose|a: int, b: int| live_grant(m, tok, now, a, b);
        assert(a == i);
        assert(b == j);
    }
    if m.tokens[i].expires_at == now + 1 {
        assert(live_grant(m, tok, now, i, j));
    }
}

/// After a revocation no record for the revoked string is held.
pub proof fn revoked_token_is_gone(s0: StoreModel, tok: Seq<char>, s1: StoreModel)
    requires
        s0.wf(),
        revoked(s0, tok, s1),
    ensures
        !holds_token(s1.tokens, tok),
{
    if holds_token(s0.tokens, tok) {
        let i = choose|i: int|
            0 <= i < s0.tokens.len() && (#[trigger] s0.tokens[i]).token@ == tok && s1.tokens
                == s0.tokens.remove(i);
        if holds_token(s1.tokens, tok) {
            let k = choose|k: int| 0 <= k < s1.tokens.len() && (#[trigger] s1.tokens[k]).token@ == tok;
            let k2 = if k < i { k } else { k + 1 };
            assert(s1.tokens[k] == s0.tokens[k2]);
        }
    }
}

/// Revoking the same token twice in a row: the second revocation changes
/// nothing.
pub proof fn revoke_is_idempotent(s0: StoreModel, tok: Seq<char>, s1: StoreModel, s2: StoreModel)
    requires
        s0.wf(),
        revoked(s0, tok, s1),
        revoked(s1, tok, s2),
    ensures
        s2 == s1,
{
    revoked_token_is_gone(s0, tok, s1);
}

/// A revoked token fails validation at every instant.
pub proof fn revoked_token_never_validates(s0: StoreModel, tok: Seq<char>, s1: StoreModel, now: i64)
    requires
        s0.wf(),
        revoked(s0, tok, s1),
    ensures
        validation(s1, tok, now) == Err::<crate::models::UserResponse, _>(
            AuthFailure::InvalidOrExpiredToken,
        ),
{
    revoked_token_is_gone(s0, tok, s1);
    if exists|a: int, b: int| live_grant(s1, tok, now, a, b) {
        let (a, b) = choose|a: int, b: int| live_grant(s1, tok, now, a, b);
        assert(holds_token(s1.tokens, tok));
    }
}

} // verus!
