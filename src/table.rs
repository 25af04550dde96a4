use vstd::prelude::*;

use crate::account::{opt_chars, Model, RegisterParams, TokenPurpose};
use crate::error::AuthError;

verus! {

/// Whether some row has the email `email`.
pub open spec fn email_taken(rows: Seq<Model>, email: Seq<char>) -> bool {
    exists|i: int| 0 <= i < rows.len() && (#[trigger] rows[i]).email@ == email
}

/// Whether some row has the public identifier `pid`.
pub open spec fn pid_taken(rows: Seq<Model>, pid: Seq<char>) -> bool {
    exists|i: int| 0 <= i < rows.len() && opt_chars((#[trigger] rows[i]).pid) == Some(pid)
}

/// Whether some row holds `token` for `purpose`.
pub open spec fn token_taken(rows: Seq<Model>, purpose: TokenPurpose, token: Seq<char>) -> bool {
    exists|i: int| 0 <= i < rows.len() && (#[trigger] rows[i]).holds_token(purpose, token)
}

/// Whether `k` is the first row that holds `token` for `purpose`.
pub open spec fn first_holder(rows: Seq<Model>, purpose: TokenPurpose, token: Seq<char>, k: int) -> bool {
    &&& 0 <= k < rows.len()
    &&& rows[k].holds_token(purpose, token)
    &&& forall|j: int| 0 <= j < k ==> !(#[trigger] rows[j]).holds_token(purpose, token)
}

/// The invariant of the table: ids follow the row order, every row has a
/// public identifier, and emails, identifiers and the tokens of each purpose
/// are unique.
pub open spec fn rows_wf(rows: Seq<Model>) -> bool {
    &&& forall|i: int| 0 <= i < rows.len() ==> (#[trigger] rows[i]).id == i + 1
    &&& forall|i: int| 0 <= i < rows.len() ==> (#[trigger] rows[i]).pid is Some
    &&& forall|i: int, j: int|
        0 <= i < rows.len() && 0 <= j < rows.len() && i != j ==> (#[trigger] rows[i]).email@
            != (#[trigger] rows[j]).email@
    &&& forall|i: int, j: int|
        0 <= i < rows.len() && 0 <= j < rows.len() && i != j ==> opt_chars((#[trigger] rows[i]).pid)
            != opt_chars((#[trigger] rows[j]).pid)
    &&& tokens_unique(rows)
}

/// Whether no two rows hold the same token for the same purpose.
pub open spec fn tokens_unique(rows: Seq<Model>) -> bool {
    forall|i: int, j: int, p: TokenPurpose|
        0 <= i < rows.len() && 0 <= j < rows.len() && i != j && (#[trigger] rows[i].token_for(p)) is Some
            ==> opt_chars(rows[i].token_for(p)) != opt_chars(#[trigger] rows[j].token_for(p))
}

/// Tokens stay unique when only the row at `k` changes and each token it
/// then holds is its earlier token of that purpose or held by no row before.
proof fn lemma_tokens_unique_after_update(olds: Seq<Model>, rows: Seq<Model>, k: int)
    requires
        tokens_unique(olds),
        rows.len() == olds.len(),
        0 <= k < rows.len(),
        forall|i: int| 0 <= i < rows.len() && i != k ==> rows[i] == olds[i],
        forall|p: TokenPurpose|
            (#[trigger] rows[k].token_for(p)) matches Some(t) ==> rows[k].token_for(p) == olds[k].token_for(p)
                || !token_taken(olds, p, t@),
    ensures
        tokens_unique(rows),
{
    assert forall|i: int, j: int, p: TokenPurpose|
        0 <= i < rows.len() && 0 <= j < rows.len() && i != j && (#[trigger] rows[i].token_for(p)) is Some
        implies opt_chars(rows[i].token_for(p)) != opt_chars(#[trigger] rows[j].token_for(p)) by {
        if i == k || j == k {
            let other = if i == k { j } else { i };
            assert(rows[other] == olds[other]);
            if rows[k].token_for(p) is Some && rows[k].token_for(p) != olds[k].token_for(p) {
                assert(!olds[other].holds_token(p, rows[k].token_for(p)->Some_0@));
            }
        } else {
            assert(rows[i] == olds[i]);
            assert(rows[j] == olds[j]);
        }
    }
}

/// Whether `m` is the row that registration stores for `params`, with the
/// password hash `hash`, the public identifier `pid`, created at `now`, under
/// the key `id`: no token issued, email not verified, no API key.
pub open spec fn is_fresh_row(m: Model, params: RegisterParams, hash: Seq<char>, pid: Seq<char>, now: i64, id: int) -> bool {
    &&& m.id == id
    &&& m.email == params.email
    &&& m.name == params.name
    &&& m.password@ == hash
    &&& opt_chars(m.pid) == Some(pid)
    &&& m.verification_token is None
    &&& m.reset_token is None
    &&& m.magic_link_token is None
    &&& m.email_verification_token is None
    &&& m.created_at == now
    &&& m.updated_at == now
    &&& m.api_key@.len() == 0
    &&& m.reset_sent_at is None
    &&& m.email_verification_sent_at is None
    &&& m.email_verified_at is None
    &&& m.magic_link_expiration is None
}

/// The account rows, in the order they were created.
pub struct UserTable {
    rows: Vec<Model>,
}

impl UserTable {
    pub closed spec fn view(&self) -> Seq<Model> {
        self.rows@
    }

    pub open spec fn wf(&self) -> bool {
        rows_wf(self.view())
    }

    /// An empty table.
    pub fn new() -> (r: UserTable)
        ensures
            r.view() == Seq::<Model>::empty(),
            r.wf(),
    {
        UserTable { rows: Vec::new() }
    }

    /// The number of accounts.
    pub fn len(&self) -> (r: usize)
        ensures
            r == self.view().len(),
    {
        self.rows.len()
    }

    /// The account at position `i`.
    pub fn get(&self, i: usize) -> (r: &Model)
        requires
            i < self.view().len(),
        ensures
            *r == self.view()[i as int],
    {
        &self.rows[i]
    }

    /// The position of the account with the email `email`.
    pub fn find_by_email(&self, email: &str) -> (r: Option<usize>)
        ensures
            r matches Some(k) ==> k < self.view().len() && self.view()[k as int].email@ == email@,
            r is None <==> !email_taken(self.view(), email@),
    {
        let q = email.to_owned();
        let mut i: usize = 0;
        while i < self.rows.len()
            invariant
                i <= self.rows@.len(),
                q@ == email@,
                forall|j: int| 0 <= j < i ==> (#[trigger] self.rows@[j]).email@ != email@,
            decreases self.rows@.len() - i,
        {
            if self.rows[i].email == q {
                return Some(i);
            }
            i += 1;
        }
        None
    }

    /// The position of the first account that holds `token` for `purpose`.
    pub fn find_by_token(&self, purpose: TokenPurpose, token: &str) -> (r: Option<usize>)
        ensures
            r matches Some(k) ==> first_holder(self.view(), purpose, token@, k as int),
            r is None <==> !token_taken(self.view(), purpose, token@),
    {
        let q = token.to_owned();
        let mut i: usize = 0;
        while i < self.rows.len()
            invariant
                i <= self.rows@.len(),
                q@ == token@,
                forall|j: int| 0 <= j < i ==> !(#[trigger] self.rows@[j]).holds_token(purpose, token@),
            decreases self.rows@.len() - i,
        {
            let held = match self.rows[i].token_ref(purpose) {
                Some(t) => *t == q,
                None => false,
            };
            if held {
                return Some(i);
            }
            i += 1;
        }
        None
    }

    /// The position of the account whose public identifier is `pid`.
    pub fn find_by_pid(&self, pid: &str) -> (r: Option<usize>)
        ensures
            r matches Some(k) ==> k < self.view().len() && opt_chars(self.view()[k as int].pid)
                == Some(pid@),
            r is None <==> !pid_taken(self.view(), pid@),
    {
        let q = pid.to_owned();
        let mut i: usize = 0;
        while i < self.rows.len()
            invariant
                i <= self.rows@.len(),
                q@ == pid@,
                forall|j: int| 0 <= j < i ==> opt_chars((#[trigger] self.rows@[j]).pid) != Some(pid@),
            decreases self.rows@.len() - i,
        {
            let found = match &self.rows[i].pid {
                Some(p) => *p == q,
                None => false,
            };
            if found {
                return Some(i);
            }
            i += 1;
        }
        None
    }

    /// Adds the account for `params` with the password hash `hash`, the
    /// public identifier `pid` and the creation time `now`. Fails, changing
    /// nothing, when the email or the identifier is already taken.
    pub fn insert_account(&mut self, params: &RegisterParams, hash: String, pid: String, now: i64) -> (r: Result<usize, AuthError>)
        requires
            old(self).wf(),
            old(self).view().len() < i32::MAX,
        ensures
            final(self).wf(),
            r is Err <==> email_taken(old(self).view(), params.email@) || pid_taken(old(self).view(), pid@),
            r matches Err(e) ==> e == AuthError::UniquenessViolation && final(self).view() == old(self).view(),
            r matches Ok(k) ==> k == old(self).view().len()
                && final(self).view() == old(self).view().push(final(self).view()[k as int])
                && is_fresh_row(final(self).view()[k as int], *params, hash@, pid@, now, k + 1),
    {
        if self.find_by_email(params.email.as_str()).is_some() {
            return Err(AuthError::UniquenessViolation);
        }
        if self.find_by_pid(pid.as_str()).is_some() {
            return Err(AuthError::UniquenessViolation);
        }
        let k = self.rows.len();
        let row = Model {
            id: (k + 1) as i32,
            email: params.email.clone(),
            password: hash,
            verification_token: None,
            reset_token: None,
            pid: Some(pid),
            magic_link_token: None,
            created_at: now,
            updated_at: now,
            api_key: String::new(),
            name: params.name.clone(),
            reset_sent_at: None,
            email_verification_token: None,
            email_verification_sent_at: None,
            email_verified_at: None,
            magic_link_expiration: None,
        };
        self.rows.push(row);
        proof {
            let rows = self.rows@;
            assert forall|i: int, j: int, p: TokenPurpose|
                0 <= i < rows.len() && 0 <= j < rows.len() && i != j && (#[trigger] rows[i].token_for(p)) is Some
                implies opt_chars(rows[i].token_for(p)) != opt_chars(#[trigger] rows[j].token_for(p)) by {
                if i != k && j != k {
                    assert(rows[i] == old(self).rows@[i]);
                    assert(rows[j] == old(self).rows@[j]);
                }
            }
        }
        Ok(k)
    }

    /// Issues `token` for `purpose` to the account at `row`, at time `now`,
    /// replacing its earlier token. Fails, changing nothing, when some account
    /// already holds `token` for `purpose`.
    pub fn issue(&mut self, row: usize, purpose: TokenPurpose, token: String, now: i64) -> (r: Result<(), AuthError>)
        requires
            old(self).wf(),
            row < old(self).view().len(),
        ensures
            final(self).wf(),
            r is Err <==> token_taken(old(self).view(), purpose, token@),
            r matches Err(e) ==> e == AuthError::UniquenessViolation && final(self).view() == old(self).view(),
            r is Ok ==> final(self).view() == old(self).view().update(
                row as int,
                old(self).view()[row as int].issued(purpose, token, now),
            ),
    {
        if self.find_by_token(purpose, token.as_str()).is_some() {
            return Err(AuthError::UniquenessViolation);
        }
        self.rows[row].issue_token(purpose, token, now);
        proof {
            lemma_tokens_unique_after_update(old(self).rows@, self.rows@, row as int);
        }
        Ok(())
    }

    /// Consumes `token` for `purpose` at time `now`: the account that holds it
    /// has it cleared, with what consuming it entails, and its position is
    /// returned. Fails with `NotFound`, changing nothing, when no account
    /// holds it.
    pub fn consume(&mut self, purpose: TokenPurpose, token: &str, now: i64) -> (r: Result<usize, AuthError>)
        requires
            old(self).wf(),
        ensures
            final(self).wf(),
            r is Err <==> !token_taken(old(self).view(), purpose, token@),
            r matches Err(e) ==> e == AuthError::NotFound && final(self).view() == old(self).view(),
            r matches Ok(k) ==> first_holder(old(self).view(), purpose, token@, k as int)
                && final(self).view() == old(self).view().update(
                    k as int,
                    old(self).view()[k as int].consumed(purpose, now),
                ),
    {
        let k = match self.find_by_token(purpose, token) {
            Some(k) => k,
            None => {
                return Err(AuthError::NotFound);
            },
        };
        self.rows[k].consume_token(purpose, now);
        proof {
            lemma_tokens_unique_after_update(old(self).rows@, self.rows@, k as int);
        }
        Ok(k)
    }

    /// Consumes the password-reset `token` at time `now` and stores `hash` as
    /// the password hash of the account that held it, whose position is
    /// returned. Fails with `NotFound`, changing nothing, when no account
    /// holds it.
    pub fn redeem_reset(&mut self, token: &str, hash: String, now: i64) -> (r: Result<usize, AuthError>)
        requires
            old(self).wf(),
        ensures
            final(self).wf(),
            r is Err <==> !token_taken(old(self).view(), TokenPurpose::PasswordReset, token@),
            r matches Err(e) ==> e == AuthError::NotFound && final(self).view() == old(self).view(),
            r matches Ok(k) ==> first_holder(old(self).view(), TokenPurpose::PasswordReset, token@, k as int)
                && final(self).view() == old(self).view().update(
                    k as int,
                    old(self).view()[k as int].password_reset(hash, now),
                ),
    {
        let k = self.consume(TokenPurpose::PasswordReset, token, now)?;
        let ghost mid = self.rows@;
        self.rows[k].password = hash;
        proof {
            lemma_tokens_unique_after_update(mid, self.rows@, k as int);
        }
        Ok(k)
    }
}

} // verus!
