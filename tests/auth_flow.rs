use std::collections::HashSet;

use token_auth::credentials::hash_password;
use token_auth::guard::{guard_entry, guard_finish, GuardStep, Verdict};
use token_auth::models::{AuthFailure, User, UserResponse};
use token_auth::store::MemoryStore;
use token_auth::tokens::TOKEN_LIFETIME;

fn user(id: i32, name: &str, email: &str, password: &str) -> User {
    User {
        id,
        username: name.to_string(),
        email: email.to_string(),
        password: hash_password(password),
        created_at: 1_700_000_000,
    }
}

fn store_with_alice() -> MemoryStore {
    let mut store = MemoryStore::new();
    store.add_user(user(1, "alice", "alice@example.com", "secret1")).unwrap();
    store.add_user(user(2, "bob", "bob@example.com", "hunter22")).unwrap();
    store
}

#[test]
fn login_user_logout_scenario() {
    let mut store = store_with_alice();
    let alice = store.verify("alice", "secret1").unwrap();
    assert_eq!(alice.id, 1);
    assert_eq!(alice.username, "alice");

    let token = store.issue(alice.id).unwrap();
    assert!(token.token.len() >= 36);
    assert_eq!(token.expires_at, token.created_at + 7 * 24 * 60 * 60);
    assert_eq!(token.user_id, 1);

    let header = format!("Bearer {}", token.token);
    let step = guard_entry("/api/user", Some(header.as_str()));
    let presented = match step {
        GuardStep::Check(t) => t,
        other => panic!("expected a token check, got {:?}", other),
    };
    assert_eq!(presented, token.token);
    let verdict = guard_finish(store.validate_at(&presented, token.created_at));
    assert_eq!(
        verdict,
        Verdict::Authorized(UserResponse {
            id: 1,
            username: "alice".to_string(),
            email: "alice@example.com".to_string(),
        })
    );
    assert!(store.validate(&presented).is_ok());

    assert_eq!(store.revoke(&presented), Ok(()));
    let after = store.validate_at(&presented, token.created_at);
    assert_eq!(after, Err(AuthFailure::InvalidOrExpiredToken));
    assert_eq!(after.unwrap_err().status(), 401);
    assert_eq!(guard_finish(store.validate(&presented)), Verdict::Rejected);
}

#[test]
fn garbage_bearer_is_unauthorized() {
    let store = store_with_alice();
    let step = guard_entry("/api/user", Some("Bearer garbage"));
    assert_eq!(step, GuardStep::Check("garbage".to_string()));
    let result = store.validate("garbage");
    assert_eq!(result, Err(AuthFailure::InvalidOrExpiredToken));
    assert_eq!(result.clone().unwrap_err().status(), 401);
    assert_eq!(guard_finish(result), Verdict::Rejected);
}

#[test]
fn verify_failures_are_uniform() {
    let store = store_with_alice();
    let unknown = store.verify("mallory", "secret1");
    let wrong = store.verify("alice", "secret2");
    assert_eq!(unknown, Err(AuthFailure::InvalidCredentials));
    assert_eq!(wrong, Err(AuthFailure::InvalidCredentials));
    assert_eq!(unknown, wrong);
    assert_eq!(store.verify("bob", "secret1"), Err(AuthFailure::InvalidCredentials));
    assert_eq!(store.verify("bob", "hunter22").unwrap().id, 2);
}

#[test]
fn issued_token_expires_seven_days_later_and_validates() {
    let mut store = store_with_alice();
    let token = store.issue_at(2, "t-1".to_string(), 1_000).unwrap();
    assert_eq!(token.created_at, 1_000);
    assert_eq!(token.expires_at, 1_000 + TOKEN_LIFETIME);
    assert_eq!(TOKEN_LIFETIME, 604_800);
    let who = store.validate_at("t-1", 1_000).unwrap();
    assert_eq!(who.id, 2);
    assert_eq!(who.username, "bob");
    assert_eq!(who.email, "bob@example.com");
}

#[test]
fn revoke_twice_is_not_an_error() {
    let mut store = store_with_alice();
    let token = store.issue(1).unwrap();
    assert_eq!(store.token_count(), 1);
    assert_eq!(store.revoke(&token.token), Ok(()));
    assert_eq!(store.token_count(), 0);
    assert_eq!(store.revoke(&token.token), Ok(()));
    assert_eq!(store.token_count(), 0);
    assert_eq!(store.revoke("never-issued"), Ok(()));
}

#[test]
fn expiry_boundary() {
    let mut store = store_with_alice();
    let token = store.issue_at(1, "edge".to_string(), 5_000).unwrap();
    let expires = token.expires_at;
    assert_eq!(store.validate_at("edge", expires), Err(AuthFailure::InvalidOrExpiredToken));
    assert_eq!(store.validate_at("edge", expires + 10), Err(AuthFailure::InvalidOrExpiredToken));
    assert_eq!(store.validate_at("edge", expires - 1).unwrap().id, 1);
}

#[test]
fn ten_thousand_tokens_are_distinct() {
    let mut store = store_with_alice();
    let mut seen = HashSet::new();
    for _ in 0..10_000 {
        let token = store.issue(1).unwrap();
        assert!(seen.insert(token.token));
    }
    assert_eq!(seen.len(), 10_000);
    assert_eq!(store.token_count(), 10_000);
}

#[test]
fn several_live_tokens_per_user() {
    let mut store = store_with_alice();
    let a = store.issue(1).unwrap();
    let b = store.issue(1).unwrap();
    assert_ne!(a.token, b.token);
    assert_eq!(b.id, a.id + 1);
    assert!(store.has_token(&a.token));
    assert!(store.has_token(&b.token));
    assert_eq!(store.validate_at(&a.token, a.created_at).unwrap().id, 1);
    assert_eq!(store.validate_at(&b.token, b.created_at).unwrap().id, 1);
}

#[test]
fn issue_failures_store_nothing() {
    let mut store = store_with_alice();
    assert_eq!(store.issue(99), Err(AuthFailure::StorageFailure));
    assert_eq!(store.issue_at(99, "x".to_string(), 0), Err(AuthFailure::StorageFailure));
    store.issue_at(1, "dup".to_string(), 0).unwrap();
    assert_eq!(store.issue_at(2, "dup".to_string(), 0), Err(AuthFailure::StorageFailure));
    assert_eq!(
        store.issue_at(1, "late".to_string(), i64::MAX),
        Err(AuthFailure::StorageFailure)
    );
    assert_eq!(store.token_count(), 1);
    assert_eq!(store.validate_at("dup", 0).unwrap().id, 1);
}

#[test]
fn add_user_rejects_duplicates() {
    let mut store = store_with_alice();
    assert_eq!(
        store.add_user(user(1, "carol", "c@example.com", "secret9")),
        Err(AuthFailure::StorageFailure)
    );
    assert_eq!(
        store.add_user(user(3, "alice", "a2@example.com", "secret9")),
        Err(AuthFailure::StorageFailure)
    );
    assert_eq!(store.add_user(user(3, "carol", "c@example.com", "secret9")), Ok(()));
    assert_eq!(store.verify("carol", "secret9").unwrap().id, 3);
}
