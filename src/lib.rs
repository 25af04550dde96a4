//! Account and token management for a small blog service: password
//! registration and checking, single-use tokens for email verification,
//! password reset and magic-link login, and signed session tokens.
mod account;
mod error;
mod external;
mod laws;
mod lifecycle;
mod table;

pub use account::{opt_chars, session_expiry, Model, RegisterParams, TokenPurpose};
pub use error::AuthError;
pub use external::{password_matches, session_token_of};
pub use laws::{lemma_email_registered_once, lemma_magic_link_single_use, lemma_reissue_supersedes};
pub use lifecycle::{consumed_at, issued_fresh, no_token_held};
pub use table::{email_taken, first_holder, is_fresh_row, pid_taken, rows_wf, token_taken, tokens_unique, UserTable};
