//! An in-memory credential store: users, and the tokens issued to them.

use vstd::prelude::*;
use crate::credentials::{check_credentials, credentials_match};
use crate::models::{profile_of, AuthFailure, PersonalAccessToken, User, UserResponse};
use crate::tokens::{
    check_token,
    grant_at,
    is_live,
    new_grant,
    now_seconds,
    LAST_ISSUE_INSTANT,
    TOKEN_LIFETIME,
};

verus! {

/// How many fresh token strings an issue draws before giving up on
/// collisions.
pub const ISSUE_ATTEMPTS: u32 = 3;

/// Users and issued tokens, held in memory.
pub struct MemoryStore {
    users: Vec<User>,
    tokens: Vec<PersonalAccessToken>,
    next_token_id: i32,
}

/// What a store holds.
pub ghost struct StoreModel {
    pub users: Seq<User>,
    pub tokens: Seq<PersonalAccessToken>,
    pub next_token_id: i32,
}

impl View for MemoryStore {
    type V = StoreModel;

    closed spec fn view(&self) -> StoreModel {
        StoreModel { users: self.users@, tokens: self.tokens@, next_token_id: self.next_token_id }
    }
}

/// Whether some record in `tokens` is for the string `tok`.
pub open spec fn holds_token(tokens: Seq<PersonalAccessToken>, tok: Seq<char>) -> bool {
    exists|i: int| 0 <= i < tokens.len() && (#[trigger] tokens[i]).token@ == tok
}

/// Whether some user in `users` has the id `id`.
pub open spec fn holds_user_id(users: Seq<User>, id: i32) -> bool {
    exists|j: int| 0 <= j < users.len() && (#[trigger] users[j]).id == id
}

/// Whether some user in `users` has the name `name`.
pub open spec fn holds_username(users: Seq<User>, name: Seq<char>) -> bool {
    exists|j: int| 0 <= j < users.len() && (#[trigger] users[j]).username@ == name
}

impl StoreModel {
    /// User ids and names are unique, token strings are unique, and token ids
    /// are positive.
    pub open spec fn wf(self) -> bool {
        &&& forall|i: int, j: int|
            0 <= i < self.users.len() && 0 <= j < self.users.len() && i != j ==> (
            #[trigger] self.users[i]).id != (#[trigger] self.users[j]).id
                && self.users[i].username@ != self.users[j].username@
        &&& forall|i: int, j: int|
            0 <= i < self.tokens.len() && 0 <= j < self.tokens.len() && i != j ==> (
            #[trigger] self.tokens[i]).token@ != (#[trigger] self.tokens[j]).token@
        &&& self.next_token_id >= 1
    }
}

/// The outcome of a login with `username` and `password`: the matching user,
/// or `InvalidCredentials` whether the name is unknown or the password wrong.
pub open spec fn login_result(m: StoreModel, username: Seq<char>, password: Seq<char>) -> Result<
    User,
    AuthFailure,
> {
    if exists|j: int| 0 <= j < m.users.len() && credentials_match(#[trigger] m.users[j], username, password) {
        let j = choose|j: int|
            0 <= j < m.users.len() && credentials_match(#[trigger] m.users[j], username, password);
        Ok(m.users[j])
    } else {
        Err(AuthFailure::InvalidCredentials)
    }
}

/// Whether record `i` grants `tok` to user `j` and is live at `now`.
pub open spec fn live_grant(m: StoreModel, tok: Seq<char>, now: i64, i: int, j: int) -> bool {
    &&& 0 <= i < m.tokens.len()
    &&& 0 <= j < m.users.len()
    &&& m.tokens[i].token@ == tok
    &&& m.tokens[i].user_id == m.users[j].id
    &&& is_live(m.tokens[i].expires_at, now)
}

/// The outcome of validating `tok` at `now`: its owner's public fields, or
/// `InvalidOrExpiredToken` whether it is unknown, expired or orphaned.
pub open spec fn validation(m: StoreModel, tok: Seq<char>, now: i64) -> Result<
    UserResponse,
    AuthFailure,
> {
    if exists|i: int, j: int| live_grant(m, tok, now, i, j) {
        let (i, j) = choose|i: int, j: int| live_grant(m, tok, now, i, j);
        Ok(profile_of(m.users[j]))
    } else {
        Err(AuthFailure::InvalidOrExpiredToken)
    }
}

/// `after` is `before` with the token `t` issued to `user_id`: the owner
/// exists, the string is new, and expiry is one lifetime after issue.
pub open spec fn issued(before: StoreModel, user_id: i32, t: PersonalAccessToken, after: StoreModel) -> bool {
    &&& holds_user_id(before.users, user_id)
    &&& !holds_token(before.tokens, t.token@)
    &&& t.id == before.next_token_id
    &&& t.user_id == user_id
    &&& t.expires_at == t.created_at + TOKEN_LIFETIME
    &&& after.users == before.users
    &&& after.tokens == before.tokens.push(t)
    &&& after.next_token_id == before.next_token_id + 1
}

/// `after` is `before` without the record for `tok`, if it had one.
pub open spec fn revoked(before: StoreModel, tok: Seq<char>, after: StoreModel) -> bool {
    &&& after.users == before.users
    &&& after.next_token_id == before.next_token_id
    &&& if holds_token(before.tokens, tok) {
        exists|i: int|
            0 <= i < before.tokens.len() && (#[trigger] before.tokens[i]).token@ == tok
                && after.tokens == before.tokens.remove(i)
    } else {
        after.tokens == before.tokens
    }
}

impl MemoryStore {
    /// An empty store.
    pub fn new() -> (r: MemoryStore)
        ensures
            r@.wf(),
            r@.users.len() == 0,
            r@.tokens.len() == 0,
    {
        MemoryStore { users: Vec::new(), tokens: Vec::new(), next_token_id: 1 }
    }

    /// The number of records held for tokens.
    pub fn token_count(&self) -> (r: usize)
        ensures
            r == self@.tokens.len(),
    {
        self.tokens.len()
    }

    fn token_position(&self, tok: &str) -> (r: Option<usize>)
        ensures
            r matches Some(i) ==> i < self@.tokens.len() && self@.tokens[i as int].token@ == tok@,
            r is None ==> !holds_token(self@.tokens, tok@),
    {
        let wanted = String::from_str(tok);
        let mut i: usize = 0;
        while i < self.tokens.len()
            invariant
                i <= self.tokens@.len(),
                wanted@ == tok@,
                forall|k: int| 0 <= k < i ==> (#[trigger] self.tokens@[k]).token@ != tok@,
            decreases self.tokens@.len() - i,
        {
            if self.tokens[i].token == wanted {
                return Some(i);
            }
            i = i + 1;
        }
        None
    }

    fn user_position_by_id(&self, id: i32) -> (r: Option<usize>)
        ensures
            r matches Some(j) ==> j < self@.users.len() && self@.users[j as int].id == id,
            r is None ==> !holds_user_id(self@.users, id),
    {
        let mut j: usize = 0;
        while j < self.users.len()
            invariant
                j <= self.users@.len(),
                forall|k: int| 0 <= k < j ==> (#[trigger] self.users@[k]).id != id,
            decreases self.users@.len() - j,
        {
            if self.users[j].id == id {
                return Some(j);
            }
            j = j + 1;
        }
        None
    }

    fn user_position_by_name(&self, name: &str) -> (r: Option<usize>)
        ensures
            r matches Some(j) ==> j < self@.users.len() && self@.users[j as int].username@ == name@,
            r is None ==> !holds_username(self@.users, name@),
    {
        let wanted = String::from_str(name);
        let mut j: usize = 0;
        while j < self.users.len()
            invariant
                j <= self.users@.len(),
                wanted@ == name@,
                forall|k: int| 0 <= k < j ==> (#[trigger] self.users@[k]).username@ != name@,
            decreases self.users@.len() - j,
        {
            if self.users[j].username == wanted {
                return Some(j);
            }
            j = j + 1;
        }
        None
    }

    /// Whether a record for the string `tok` is held, live or not.
    pub fn has_token(&self, tok: &str) -> (r: bool)
        ensures
            r == holds_token(self@.tokens, tok@),
    {
        self.token_position(tok).is_some()
    }

    /// Adds a user whose id and name are both new; otherwise fails with
    /// `StorageFailure` and changes nothing.
    pub fn add_user(&mut self, user: User) -> (r: Result<(), AuthFailure>)
        requires
            old(self)@.wf(),
        ensures
            final(self)@.wf(),
            r is Ok <==> (!holds_user_id(old(self)@.users, user.id) && !holds_username(
                old(self)@.users,
                user.username@,
            )),
            r is Ok ==> final(self)@ == (StoreModel { users: old(self)@.users.push(user), ..old(self)@ }),
            r is Err ==> final(self)@ == old(self)@ && r == Err::<(), AuthFailure>(
                AuthFailure::StorageFailure,
            ),
    {
        if self.user_position_by_id(user.id).is_some() || self.user_position_by_name(
            user.username.as_str(),
        ).is_some() {
            return Err(AuthFailure::StorageFailure);
        }
        let ghost before = self@;
        self.users.push(user);
        proof {
            assert forall|i: int, j: int|
                0 <= i < self@.users.len() && 0 <= j < self@.users.len() && i != j implies (
                #[trigger] self@.users[i]).id != (#[trigger] self@.users[j]).id
                    && self@.users[i].username@ != self@.users[j].username@ by {
                let n = before.users.len() as int;
                if i == n {
                    assert(before.users[j] == self@.users[j]);
                } else if j == n {
                    assert(before.users[i] == self@.users[i]);
                }
            }
        }
        Ok(())
    }

    /// Checks a username and password against the stored users: the user
    /// whose name matches and whose stored digest is that of the password,
    /// else `InvalidCredentials`, the same whether the name is unknown or the
    /// password wrong.
    pub fn verify(&self, username: &str, password: &str) -> (r: Result<User, AuthFailure>)
        requires
            self@.wf(),
        ensures
            r == login_result(self@, username@, password@),
    {
        let pos = self.user_position_by_name(username);
        let found = match pos {
            Some(k) => Some(self.users[k].duplicate()),
            None => None,
        };
        let r = check_credentials(Ok(found), username, password);
        proof {
            let m = self@;
            if exists|j: int|
                0 <= j < m.users.len() && credentials_match(#[trigger] m.users[j], username@, password@) {
                let j = choose|j: int|
                    0 <= j < m.users.len() && credentials_match(#[trigger] m.users[j], username@, password@);
                match pos {
                    Some(k) => {
                        assert(m.users[k as int].username@ == m.users[j].username@);
                        assert(j == k as int);
                    },
                    None => {
                        assert(holds_username(m.users, username@));
                    },
                }
            }
        }
        r
    }

    /// Records `token` as issued to `user_id` at `now`, with the next token
    /// id. Fails with `StorageFailure`, changing nothing, where the owner is
    /// unknown, the string is already held, the expiry would not be
    /// representable, or token ids are used up.
    pub fn issue_at(&mut self, user_id: i32, token: String, now: i64) -> (r: Result<
        PersonalAccessToken,
        AuthFailure,
    >)
        requires
            old(self)@.wf(),
        ensures
            final(self)@.wf(),
            r is Ok <==> {
                &&& holds_user_id(old(self)@.users, user_id)
                &&& !holds_token(old(self)@.tokens, token@)
                &&& now <= LAST_ISSUE_INSTANT
                &&& old(self)@.next_token_id < i32::MAX
            },
            r matches Ok(t) ==> issued(old(self)@, user_id, t, final(self)@) && t.token == token
                && t.created_at == now,
            r is Err ==> final(self)@ == old(self)@ && r == Err::<PersonalAccessToken, AuthFailure>(
                AuthFailure::StorageFailure,
            ),
    {
        if self.user_position_by_id(user_id).is_none() || self.token_position(token.as_str()).is_some()
            || self.next_token_id == i32::MAX {
            return Err(AuthFailure::StorageFailure);
        }
        let grant = match grant_at(user_id, token, now) {
            Some(g) => g,
            None => {
                return Err(AuthFailure::StorageFailure);
            },
        };
        let t = PersonalAccessToken { id: self.next_token_id, ..grant };
        let ghost before = self@;
        self.tokens.push(t.duplicate());
        self.next_token_id = self.next_token_id + 1;
        proof {
            let n = before.tokens.len() as int;
            assert(self@.tokens[n] == t);
            assert forall|i: int, j: int|
                0 <= i < self@.tokens.len() && 0 <= j < self@.tokens.len() && i != j implies (
                #[trigger] self@.tokens[i]).token@ != (#[trigger] self@.tokens[j]).token@ by {
                if i == n {
                    assert(before.tokens[j] == self@.tokens[j]);
                } else if j == n {
                    assert(before.tokens[i] == self@.tokens[i]);
                } else {
                    assert(before.tokens[i] == self@.tokens[i]);
                    assert(before.tokens[j] == self@.tokens[j]);
                }
            }
        }
        Ok(t)
    }

    /// Issues a fresh random token to `user_id`, valid for one lifetime from
    /// now. A string that is already held is drawn again, up to
    /// `ISSUE_ATTEMPTS` times; on failure nothing is stored.
    pub fn issue(&mut self, user_id: i32) -> (r: Result<PersonalAccessToken, AuthFailure>)
        requires
            old(self)@.wf(),
        ensures
            final(self)@.wf(),
            r matches Ok(t) ==> issued(old(self)@, user_id, t, final(self)@) && t.token@.len() == 36,
            r is Err ==> final(self)@ == old(self)@ && r == Err::<PersonalAccessToken, AuthFailure>(
                AuthFailure::StorageFailure,
            ),
    {
        let mut attempt: u32 = 0;
        while attempt < ISSUE_ATTEMPTS
            invariant
                self@ == old(self)@,
                self@.wf(),
            decreases ISSUE_ATTEMPTS - attempt,
        {
            match new_grant(user_id) {
                None => {
                    return Err(AuthFailure::StorageFailure);
                },
                Some(g) => {
                    if !self.has_token(g.token.as_str()) {
                        return self.issue_at(user_id, g.token, g.created_at);
                    }
                },
            }
            attempt = attempt + 1;
        }
        Err(AuthFailure::StorageFailure)
    }

    /// Validates `tok` at `now`: the public fields of its owner if a record
    /// for it is held and expires after `now`, else `InvalidOrExpiredToken`.
    pub fn validate_at(&self, tok: &str, now: i64) -> (r: Result<UserResponse, AuthFailure>)
        requires
            self@.wf(),
        ensures
            r == validation(self@, tok@, now),
    {
        let m = Ghost(self@);
        let lookup = match self.token_position(tok) {
            None => None,
            Some(i) => match self.user_position_by_id(self.tokens[i].user_id) {
                None => None,
                Some(j) => Some((i, j)),
            },
        };
        let found = match lookup {
            None => None,
            Some((i, j)) => Some((self.tokens[i].duplicate(), self.users[j].duplicate())),
        };
        let r = check_token(Ok(found), tok, now);
        proof {
            let m = m@;
            if exists|i: int, j: int| live_grant(m, tok@, now, i, j) {
                let (i, j) = choose|i: int, j: int| live_grant(m, tok@, now, i, j);
                match lookup {
                    None => {
                        assert(holds_token(m.tokens, tok@));
                        assert(holds_user_id(m.users, m.tokens[i].user_id));
                    },
                    Some((a, b)) => {
                        assert(a as int == i);
                        assert(b as int == j);
                    },
                }
            } else {
                match lookup {
                    None => {},
                    Some((a, b)) => {
                        if is_live(m.tokens[a as int].expires_at, now) {
                            assert(live_grant(m, tok@, now, a as int, b as int));
                        }
                    },
                }
            }
        }
        r
    }

    /// Validates `tok` against the server's clock. Whatever the clock reads,
    /// the outcome is that of `validate_at` at some instant.
    pub fn validate(&self, tok: &str) -> (r: Result<UserResponse, AuthFailure>)
        requires
            self@.wf(),
        ensures
            exists|now: i64| r == validation(self@, tok@, now),
    {
        let now = now_seconds();
        let r = self.validate_at(tok, now);
        assert(r == validation(self@, tok@, now));
        r
    }

    /// Deletes the record for `tok` if one is held. Revoking a token that is
    /// absent, expired or already revoked is no error.
    pub fn revoke(&mut self, tok: &str) -> (r: Result<(), AuthFailure>)
        requires
            old(self)@.wf(),
        ensures
            final(self)@.wf(),
            r is Ok,
            revoked(old(self)@, tok@, final(self)@),
    {
        match self.token_position(tok) {
            None => {},
            Some(i) => {
                let ghost before = self@;
                self.tokens.remove(i);
                proof {
                    let i = i as int;
                    assert(before.tokens[i].token@ == tok@);
                    assert forall|a: int, b: int|
                        0 <= a < self@.tokens.len() && 0 <= b < self@.tokens.len() && a != b implies (
                        #[trigger] self@.tokens[a]).token@ != (#[trigger] self@.tokens[b]).token@ by {
                        let a2 = if a < i { a } else { a + 1 };
                        let b2 = if b < i { b } else { b + 1 };
                        assert(self@.tokens[a] == before.tokens[a2]);
                        assert(self@.tokens[b] == before.tokens[b2]);
                    }
                    assert(self@.users == before.users);
                    assert(self@.next_token_id == before.next_token_id);
                    assert(self@.tokens == before.tokens.remove(i));
                    assert(self@.wf());
                }
            },
        }
        Ok(())
    }
}

} // verus!
