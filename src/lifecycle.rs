use vstd::prelude::*;

use crate::account::{Model, RegisterParams, TokenPurpose};
use crate::error::AuthError;
use crate::external::{hash_password, now_seconds, password_matches, random_token};
use crate::table::{email_taken, first_holder, is_fresh_row, token_taken, UserTable};

verus! {

/// Whether no account holds a token for `purpose`.
pub open spec fn no_token_held(rows: Seq<Model>, purpose: TokenPurpose) -> bool {
    forall|i: int| 0 <= i < rows.len() ==> (#[trigger] rows[i]).token_for(purpose) is None
}

/// Whether `after` is `before` with a fresh token, held by no account before,
/// issued for `purpose` to the account at `row`.
pub open spec fn issued_fresh(before: Seq<Model>, after: Seq<Model>, row: int, purpose: TokenPurpose) -> bool {
    &&& 0 <= row < before.len()
    &&& after[row].token_for(purpose) matches Some(t)
    &&& !token_taken(before, purpose, t@)
    &&& after == before.update(row, before[row].issued(purpose, t, after[row].updated_at))
}

/// Whether `after` is `before` with `token`, held for `purpose` by the
/// account at `k`, consumed.
pub open spec fn consumed_at(before: Seq<Model>, after: Seq<Model>, purpose: TokenPurpose, token: Seq<char>, k: int) -> bool {
    &&& first_holder(before, purpose, token, k)
    &&& after == before.update(k, before[k].consumed(purpose, after[k].updated_at))
}

impl Model {
    /// Registers an account for `params`: the password is hashed, a fresh
    /// public identifier drawn, and the new row's position returned. Fails
    /// with `UniquenessViolation` when the email is taken (or the drawn
    /// identifier is), with `HashingError` when hashing fails, with
    /// `RandomnessError` when no identifier can be drawn; a failure changes
    /// nothing.
    pub fn create_with_password(db: &mut UserTable, params: &RegisterParams) -> (r: Result<usize, AuthError>)
        requires
            old(db).wf(),
            old(db).view().len() < i32::MAX,
        ensures
            final(db).wf(),
            email_taken(old(db).view(), params.email@) ==> r == Err::<usize, AuthError>(AuthError::UniquenessViolation),
            r matches Err(e) ==> (e == AuthError::UniquenessViolation || e == AuthError::HashingError
                || e == AuthError::RandomnessError) && final(db).view() == old(db).view(),
            r matches Ok(k) ==> {
                let m = final(db).view()[k as int];
                &&& k == old(db).view().len()
                &&& final(db).view() == old(db).view().push(m)
                &&& is_fresh_row(m, *params, m.password@, m.pid->Some_0@, m.created_at, k + 1)
                &&& password_matches(params.password@, m.password@)
                &&& m.password@.len() == 60
                &&& m.pid->Some_0@.len() == 36
            },
    {
        if db.find_by_email(params.email.as_str()).is_some() {
            return Err(AuthError::UniquenessViolation);
        }
        let hash = match hash_password(params.password.as_str()) {
            Ok(h) => h,
            Err(_) => {
                return Err(AuthError::HashingError);
            },
        };
        let pid = match random_token() {
            Some(p) => p,
            None => {
                return Err(AuthError::RandomnessError);
            },
        };
        let now = now_seconds();
        db.insert_account(params, hash, pid, now)
    }

    /// The position of the account that holds the verification `token`.
    pub fn find_by_verification_token(db: &UserTable, token: &str) -> (r: Option<usize>)
        ensures
            r matches Some(k) ==> first_holder(db.view(), TokenPurpose::Verification, token@, k as int),
            r is None <==> !token_taken(db.view(), TokenPurpose::Verification, token@),
    {
        db.find_by_token(TokenPurpose::Verification, token)
    }

    /// The position of the account that holds the password-reset `token`.
    pub fn find_by_reset_token(db: &UserTable, token: &str) -> (r: Option<usize>)
        ensures
            r matches Some(k) ==> first_holder(db.view(), TokenPurpose::PasswordReset, token@, k as int),
            r is None <==> !token_taken(db.view(), TokenPurpose::PasswordReset, token@),
    {
        db.find_by_token(TokenPurpose::PasswordReset, token)
    }

    /// The position of the account that holds the magic-link `token`.
    pub fn find_by_magic_token(db: &UserTable, token: &str) -> (r: Option<usize>)
        ensures
            r matches Some(k) ==> first_holder(db.view(), TokenPurpose::MagicLink, token@, k as int),
            r is None <==> !token_taken(db.view(), TokenPurpose::MagicLink, token@),
    {
        db.find_by_token(TokenPurpose::MagicLink, token)
    }

    /// The position of the account whose public identifier is `pid`.
    pub fn find_by_pid(db: &UserTable, pid: &str) -> (r: Option<usize>)
        ensures
            r matches Some(k) ==> k < db.view().len() && crate::account::opt_chars(db.view()[k as int].pid) == Some(pid@),
            r is None <==> !crate::table::pid_taken(db.view(), pid@),
    {
        db.find_by_pid(pid)
    }

    /// Issues a fresh random token for `purpose` to the account at `row`,
    /// superseding its earlier one. Fails, changing nothing, with
    /// `UniquenessViolation` when the drawn token is already held, and with
    /// `RandomnessError` when no token can be drawn; when no account holds a
    /// token for `purpose` the first cannot happen.
    pub fn issue_fresh_token(db: &mut UserTable, row: usize, purpose: TokenPurpose) -> (r: Result<(), AuthError>)
        requires
            old(db).wf(),
            row < old(db).view().len(),
        ensures
            final(db).wf(),
            r matches Err(e) ==> (e == AuthError::UniquenessViolation || e == AuthError::RandomnessError)
                && final(db).view() == old(db).view(),
            no_token_held(old(db).view(), purpose) ==> r != Err::<(), AuthError>(AuthError::UniquenessViolation),
            r is Ok ==> issued_fresh(old(db).view(), final(db).view(), row as int, purpose),
    {
        let token = match random_token() {
            Some(t) => t,
            None => {
                return Err(AuthError::RandomnessError);
            },
        };
        let now = now_seconds();
        db.issue(row, purpose, token, now)
    }

    /// Issues a fresh email-verification token to the account at `row`.
    pub fn set_email_verification_sent(db: &mut UserTable, row: usize) -> (r: Result<(), AuthError>)
        requires
            old(db).wf(),
            row < old(db).view().len(),
        ensures
            final(db).wf(),
            r matches Err(e) ==> (e == AuthError::UniquenessViolation || e == AuthError::RandomnessError)
                && final(db).view() == old(db).view(),
            no_token_held(old(db).view(), TokenPurpose::Verification) ==> r != Err::<(), AuthError>(AuthError::UniquenessViolation),
            r is Ok ==> issued_fresh(old(db).view(), final(db).view(), row as int, TokenPurpose::Verification),
    {
        Model::issue_fresh_token(db, row, TokenPurpose::Verification)
    }

    /// Issues a fresh password-reset token to the account at `row`.
    pub fn set_forgot_password_sent(db: &mut UserTable, row: usize) -> (r: Result<(), AuthError>)
        requires
            old(db).wf(),
            row < old(db).view().len(),
        ensures
            final(db).wf(),
            r matches Err(e) ==> (e == AuthError::UniquenessViolation || e == AuthError::RandomnessError)
                && final(db).view() == old(db).view(),
            no_token_held(old(db).view(), TokenPurpose::PasswordReset) ==> r != Err::<(), AuthError>(AuthError::UniquenessViolation),
            r is Ok ==> issued_fresh(old(db).view(), final(db).view(), row as int, TokenPurpose::PasswordReset),
    {
        Model::issue_fresh_token(db, row, TokenPurpose::PasswordReset)
    }

    /// Issues a fresh magic-link token to the account at `row`.
    pub fn create_magic_link(db: &mut UserTable, row: usize) -> (r: Result<(), AuthError>)
        requires
            old(db).wf(),
            row < old(db).view().len(),
        ensures
            final(db).wf(),
            r matches Err(e) ==> (e == AuthError::UniquenessViolation || e == AuthError::RandomnessError)
                && final(db).view() == old(db).view(),
            no_token_held(old(db).view(), TokenPurpose::MagicLink) ==> r != Err::<(), AuthError>(AuthError::UniquenessViolation),
            r is Ok ==> issued_fresh(old(db).view(), final(db).view(), row as int, TokenPurpose::MagicLink),
    {
        Model::issue_fresh_token(db, row, TokenPurpose::MagicLink)
    }

    /// Consumes the magic-link `token`: it is cleared and the email marked
    /// verified if it was not yet. Fails with `NotFound`, changing nothing,
    /// when no account holds it.
    pub fn clear_magic_link(db: &mut UserTable, token: &str) -> (r: Result<usize, AuthError>)
        requires
            old(db).wf(),
        ensures
            final(db).wf(),
            r is Err <==> !token_taken(old(db).view(), TokenPurpose::MagicLink, token@),
            r matches Err(e) ==> e == AuthError::NotFound && final(db).view() == old(db).view(),
            r matches Ok(k) ==> consumed_at(old(db).view(), final(db).view(), TokenPurpose::MagicLink, token@, k as int),
    {
        let now = now_seconds();
        db.consume(TokenPurpose::MagicLink, token, now)
    }

    /// Consumes the email-verification `token`: it is cleared and the email
    /// marked verified now. Fails with `NotFound`, changing nothing, when no
    /// account holds it.
    pub fn verified(db: &mut UserTable, token: &str) -> (r: Result<usize, AuthError>)
        requires
            old(db).wf(),
        ensures
            final(db).wf(),
            r is Err <==> !token_taken(old(db).view(), TokenPurpose::Verification, token@),
            r matches Err(e) ==> e == AuthError::NotFound && final(db).view() == old(db).view(),
            r matches Ok(k) ==> consumed_at(old(db).view(), final(db).view(), TokenPurpose::Verification, token@, k as int),
    {
        let now = now_seconds();
        db.consume(TokenPurpose::Verification, token, now)
    }

    /// Consumes the password-reset `token` and stores a hash of `password`
    /// for the account that held it. Fails with `NotFound` when no account
    /// holds the token, with `HashingError` when hashing fails; a failure
    /// changes nothing.
    pub fn reset_password(db: &mut UserTable, token: &str, password: &str) -> (r: Result<usize, AuthError>)
        requires
            old(db).wf(),
        ensures
            final(db).wf(),
            !token_taken(old(db).view(), TokenPurpose::PasswordReset, token@) <==> r == Err::<usize, AuthError>(AuthError::NotFound),
            r matches Err(e) ==> (e == AuthError::NotFound || e == AuthError::HashingError)
                && final(db).view() == old(db).view(),
            r matches Ok(k) ==> {
                let m = final(db).view()[k as int];
                &&& first_holder(old(db).view(), TokenPurpose::PasswordReset, token@, k as int)
                &&& final(db).view() == old(db).view().update(k as int, old(db).view()[k as int].password_reset(m.password, m.updated_at))
                &&& password_matches(password@, m.password@)
                &&& m.password@.len() == 60
            },
    {
        if db.find_by_token(TokenPurpose::PasswordReset, token).is_none() {
            return Err(AuthError::NotFound);
        }
        let hash = match hash_password(password) {
            Ok(h) => h,
            Err(_) => {
                return Err(AuthError::HashingError);
            },
        };
        let now = now_seconds();
        db.redeem_reset(token, hash, now)
    }
}

} // verus!
