use vstd::prelude::*;

verus! {

/// The ways an account operation can fail.
#[derive(Clone, Copy, Debug, PartialEq, Eq, Structural)]
pub enum AuthError {
    /// Hashing the password failed.
    HashingError,
    /// The email or the public identifier is already taken, or a freshly drawn
    /// token is already held by another account.
    UniquenessViolation,
    /// No account holds the token or identifier that was looked up.
    NotFound,
    /// The session token could not be issued.
    SigningError,
    /// The operating system gave no randomness for a fresh identifier or
    /// token.
    RandomnessError,
}

} // verus!
