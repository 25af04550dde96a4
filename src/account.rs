use vstd::prelude::*;

use crate::error::AuthError;
use crate::external::{check_password, now_seconds, password_matches, session_token_of, sign_session};

verus! {

/// What a new account is registered with.
pub struct RegisterParams {
    pub email: String,
    pub password: String,
    pub name: String,
}

/// The three single-use token flows, which share one life cycle:
/// issued, then consumed or superseded by a newer issue.
#[derive(Clone, Copy, Debug, PartialEq, Eq, Structural)]
pub enum TokenPurpose {
    Verification,
    PasswordReset,
    MagicLink,
}

/// One account row. Times are seconds since the Unix epoch.
pub struct Model {
    /// Internal key, assigned by the table.
    pub id: i32,
    pub email: String,
    /// The bcrypt hash of the password, never the password itself.
    pub password: String,
    pub verification_token: Option<String>,
    pub reset_token: Option<String>,
    /// The public identifier, assigned once at creation.
    pub pid: Option<String>,
    pub magic_link_token: Option<String>,
    pub created_at: i64,
    pub updated_at: i64,
    pub api_key: String,
    pub name: String,
    pub reset_sent_at: Option<i64>,
    pub email_verification_token: Option<String>,
    pub email_verification_sent_at: Option<i64>,
    pub email_verified_at: Option<i64>,
    pub magic_link_expiration: Option<i64>,
}

/// The characters of an optional string.
pub open spec fn opt_chars(o: Option<String>) -> Option<Seq<char>> {
    match o {
        Some(s) => Some(s@),
        None => None,
    }
}

/// The expiry of a session token issued at `now` for `expiration` seconds,
/// when it is a time that a token can carry.
pub open spec fn session_expiry(now: i64, expiration: i64) -> Option<int> {
    if 0 <= now + expiration <= i64::MAX {
        Some(now + expiration)
    } else {
        None
    }
}

impl Model {
    /// The token field that serves `purpose`.
    pub open spec fn token_for(self, purpose: TokenPurpose) -> Option<String> {
        match purpose {
            TokenPurpose::Verification => self.verification_token,
            TokenPurpose::PasswordReset => self.reset_token,
            TokenPurpose::MagicLink => self.magic_link_token,
        }
    }

    /// Whether this account currently holds `token` for `purpose`.
    pub open spec fn holds_token(self, purpose: TokenPurpose, token: Seq<char>) -> bool {
        opt_chars(self.token_for(purpose)) == Some(token)
    }

    /// The subject of this account's session tokens: its public identifier,
    /// or the empty string where it has none.
    pub open spec fn subject(self) -> Seq<char> {
        match self.pid {
            Some(p) => p@,
            None => Seq::empty(),
        }
    }

    /// The row after `token` is issued for `purpose` at time `now`; the token
    /// replaces any earlier one, and issuing a verification or reset token
    /// records when it was sent.
    pub open spec fn issued(self, purpose: TokenPurpose, token: String, now: i64) -> Model {
        match purpose {
            TokenPurpose::Verification => Model {
                verification_token: Some(token),
                email_verification_sent_at: Some(now),
                updated_at: now,
                ..self
            },
            TokenPurpose::PasswordReset => Model {
                reset_token: Some(token),
                reset_sent_at: Some(now),
                updated_at: now,
                ..self
            },
            TokenPurpose::MagicLink => Model { magic_link_token: Some(token), updated_at: now, ..self },
        }
    }

    /// The row after its token for `purpose` is consumed at time `now`: the
    /// token is cleared; a verification token marks the email verified now, a
    /// magic-link token marks it verified only if it was not yet.
    pub open spec fn consumed(self, purpose: TokenPurpose, now: i64) -> Model {
        match purpose {
            TokenPurpose::Verification => Model {
                verification_token: None,
                email_verified_at: Some(now),
                updated_at: now,
                ..self
            },
            TokenPurpose::PasswordReset => Model { reset_token: None, updated_at: now, ..self },
            TokenPurpose::MagicLink => Model {
                magic_link_token: None,
                email_verified_at: if self.email_verified_at is Some {
                    self.email_verified_at
                } else {
                    Some(now)
                },
                updated_at: now,
                ..self
            },
        }
    }

    /// This account's token for `purpose`.
    pub fn token_ref(&self, purpose: TokenPurpose) -> (r: &Option<String>)
        ensures
            *r == self.token_for(purpose),
    {
        match purpose {
            TokenPurpose::Verification => &self.verification_token,
            TokenPurpose::PasswordReset => &self.reset_token,
            TokenPurpose::MagicLink => &self.magic_link_token,
        }
    }

    /// The row after a password reset at time `now` that stores `hash`.
    pub open spec fn password_reset(self, hash: String, now: i64) -> Model {
        Model { password: hash, ..self.consumed(TokenPurpose::PasswordReset, now) }
    }

    /// Stores `token` as this account's token for `purpose`, issued at `now`.
    pub fn issue_token(&mut self, purpose: TokenPurpose, token: String, now: i64)
        ensures
            *final(self) == old(self).issued(purpose, token, now),
    {
        match purpose {
            TokenPurpose::Verification => {
                self.verification_token = Some(token);
                self.email_verification_sent_at = Some(now);
            },
            TokenPurpose::PasswordReset => {
                self.reset_token = Some(token);
                self.reset_sent_at = Some(now);
            },
            TokenPurpose::MagicLink => {
                self.magic_link_token = Some(token);
            },
        }
        self.updated_at = now;
    }

    /// Clears this account's token for `purpose` at `now` and applies what
    /// consuming it entails.
    pub fn consume_token(&mut self, purpose: TokenPurpose, now: i64)
        ensures
            *final(self) == old(self).consumed(purpose, now),
    {
        match purpose {
            TokenPurpose::Verification => {
                self.verification_token = None;
                self.email_verified_at = Some(now);
            },
            TokenPurpose::PasswordReset => {
                self.reset_token = None;
            },
            TokenPurpose::MagicLink => {
                self.magic_link_token = None;
                if self.email_verified_at.is_none() {
                    self.email_verified_at = Some(now);
                }
            },
        }
        self.updated_at = now;
    }

    /// Whether `password` is the one this account's hash was made from.
    /// A malformed stored hash counts as no match.
    pub fn verify_password(&self, password: &str) -> (r: bool)
        ensures
            r == password_matches(password@, self.password@),
    {
        check_password(password, self.password.as_str())
    }

    /// A session token for this account, taking `now` as the current time:
    /// its subject is the public identifier and it expires `expiration`
    /// seconds after `now`, signed with `secret`. Fails exactly when that
    /// expiry is before the epoch or beyond what a timestamp can hold.
    pub fn generate_jwt_at(&self, secret: &str, expiration: i64, now: i64) -> (r: Result<
        String,
        AuthError,
    >)
        requires
            self.pid is Some,
        ensures
            session_expiry(now, expiration) is None ==> r == Err::<String, AuthError>(
                AuthError::SigningError,
            ),
            session_expiry(now, expiration) matches Some(exp) ==> r matches Ok(t) && t@
                == session_token_of(self.subject(), exp, secret@),
    {
        let exp = match now.checked_add(expiration) {
            Some(e) => e,
            None => {
                return Err(AuthError::SigningError);
            },
        };
        if exp < 0 {
            return Err(AuthError::SigningError);
        }
        let sub: &str = match &self.pid {
            Some(p) => p.as_str(),
            None => "",
        };
        match sign_session(sub, exp as u64, secret) {
            Ok(t) => Ok(t),
            Err(_) => Err(AuthError::SigningError),
        }
    }

    /// A session token for this account that expires `expiration` seconds
    /// from now, signed with `secret`; it is what `generate_jwt_at` gives at
    /// the time the clock reads.
    pub fn generate_jwt(&self, secret: &str, expiration: i64) -> (r: Result<String, AuthError>)
        requires
            self.pid is Some,
        ensures
            exists|now: i64|
                #![trigger session_expiry(now, expiration)]
                match session_expiry(now, expiration) {
                    Some(exp) => r matches Ok(t) && t@ == session_token_of(self.subject(), exp, secret@),
                    None => r == Err::<String, AuthError>(AuthError::SigningError),
                },
    {
        let now = now_seconds();
        self.generate_jwt_at(secret, expiration, now)
    }
}

} // verus!
