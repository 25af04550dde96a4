use vstd::prelude::*;

verus! {

/// The error of `bcrypt`'s functions, carried through unopened.
#[verifier::external_type_specification]
#[verifier::external_body]
pub struct ExBcryptError(bcrypt::BcryptError);

/// The error of `getrandom::fill`, carried through unopened.
#[verifier::external_type_specification]
#[verifier::external_body]
pub struct ExRandomError(getrandom::Error);

/// The error of `jsonwebtoken`'s functions, carried through unopened.
#[verifier::external_type_specification]
#[verifier::external_body]
pub struct ExJwtError(jsonwebtoken::errors::Error);

/// Whether `bcrypt::verify` accepts `password` against the stored `hash`,
/// a failed check (a malformed hash) counting as no match.
pub uninterp spec fn password_matches(password: Seq<char>, hash: Seq<char>) -> bool;

/// The token that `jsonwebtoken::encode` makes of the claims `sub` and `exp`
/// under the default header (HS256) with `secret` as the HMAC key.
pub uninterp spec fn session_token_of(sub: Seq<char>, exp: int, secret: Seq<char>) -> Seq<char>;

/// Relies on `bcrypt::hash` with `bcrypt::DEFAULT_COST`: on success it returns
/// the 60-character string `$2b$12$` followed by salt and digest, which
/// `bcrypt::verify` accepts for the same password (same salt, cost and input).
/// It fails when the operating system gives no randomness for the salt.
#[verifier::external_body]
pub(crate) fn hash_password(password: &str) -> (r: Result<String, bcrypt::BcryptError>)
    ensures
        r matches Ok(h) ==> h@.len() == 60 && h@[0] == '$' && password_matches(password@, h@),
{
    bcrypt::hash(password, bcrypt::DEFAULT_COST)
}

/// Relies on `bcrypt::verify`, an error being read as no match. A hash that
/// `bcrypt::verify` can parse has three `$`-separated parts: a two-letter
/// prefix, a cost, and 53 characters of salt and digest, so it is at least 58
/// characters long; a shorter one is an error.
#[verifier::external_body]
pub(crate) fn check_password(password: &str, hash: &str) -> (r: bool)
    ensures
        r == password_matches(password@, hash@),
        hash@.len() < 58 ==> !r,
{
    bcrypt::verify(password, hash).unwrap_or(false)
}

/// Relies on `getrandom::fill` for 16 bytes from the operating system's
/// source of randomness; it returns an error, without panicking, when that
/// source fails.
#[verifier::external_body]
pub(crate) fn random_bytes() -> (r: Result<[u8; 16], getrandom::Error>) {
    let mut bytes = [0u8; 16];
    getrandom::fill(&mut bytes).map(|_| bytes)
}

/// Relies on `uuid::Builder::from_random_bytes`, which sets the version and
/// variant bits of `bytes`, and on `Uuid`'s hyphenated text form of 36
/// characters.
#[verifier::external_body]
pub(crate) fn uuid_text(bytes: [u8; 16]) -> (r: String)
    ensures
        r@.len() == 36,
{
    uuid::Builder::from_random_bytes(bytes).into_uuid().to_string()
}

/// A fresh random version-4 identifier in its 36-character text form, or
/// `None` when the operating system gives no randomness.
pub(crate) fn random_token() -> (r: Option<String>)
    ensures
        r matches Some(t) ==> t@.len() == 36,
{
    match random_bytes() {
        Ok(bytes) => Some(uuid_text(bytes)),
        Err(_) => None,
    }
}

/// Relies on `chrono`'s conversion of `std::time::SystemTime::now()` into a
/// `DateTime<Utc>` for the current time, in seconds since the Unix epoch
/// (negative before it).
#[verifier::external_body]
pub(crate) fn now_seconds() -> (r: i64) {
    chrono::DateTime::<chrono::Utc>::from(std::time::SystemTime::now()).timestamp()
}

/// Relies on `jsonwebtoken::encode` to sign the claims `sub` and `exp` under
/// the default header (HS256) with `secret` as the key. With an HMAC key made
/// by `EncodingKey::from_secret` the key family matches the header, the
/// header and a JSON map always serialise, and HMAC signing cannot fail, so
/// the call always succeeds.
#[verifier::external_body]
pub(crate) fn sign_session(sub: &str, exp: u64, secret: &str) -> (r: Result<String, jsonwebtoken::errors::Error>)
    ensures
        r is Ok,
        r matches Ok(t) ==> t@ == session_token_of(sub@, exp as int, secret@),
{
    let mut claims = serde_json::Map::new();
    claims.insert("sub".to_string(), serde_json::Value::from(sub));
    claims.insert("exp".to_string(), serde_json::Value::from(exp));
    let key = jsonwebtoken::EncodingKey::from_secret(secret.as_bytes());
    jsonwebtoken::encode(&jsonwebtoken::Header::default(), &claims, &key)
}

} // verus!
