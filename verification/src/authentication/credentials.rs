//! Credentials: checking a password against the stored hash, and hashing a
//! new password.

use argon2::password_hash::SaltString;
use argon2::{Argon2, PasswordHasher, PasswordVerifier};
use vstd::prelude::*;

verus! {

/// Whether `argon2::PasswordHash::new` reads a hash in PHC string format
/// from `s`.
pub uninterp spec fn is_password_hash(s: Seq<char>) -> bool;

/// Whether `argon2::Argon2::verify_password`, with the default parameters,
/// accepts the password `password` for the hash that is read from `hash`.
pub uninterp spec fn password_verifies(hash: Seq<char>, password: Seq<char>) -> bool;

/// How a password fares against a stored hash.
#[derive(Debug, Clone, Copy, PartialEq, Eq, Structural)]
pub enum PasswordCheck {
    /// The stored text is no hash in PHC string format.
    Malformed,
    /// The password does not give the hash.
    Mismatch,
    /// The password gives the hash.
    Match,
}

/// How the password `password` fares against the stored text `hash`.
pub open spec fn password_check(hash: Seq<char>, password: Seq<char>) -> PasswordCheck {
    if !is_password_hash(hash) {
        PasswordCheck::Malformed
    } else if password_verifies(hash, password) {
        PasswordCheck::Match
    } else {
        PasswordCheck::Mismatch
    }
}

/// `argon2::PasswordHash::new`: whether `s` is a hash in PHC string format.
/// Trusted: the result is the one that the name `is_password_hash` stands
/// for.
#[verifier::external_body]
pub(crate) fn parses_as_hash(s: &str) -> (b: bool)
    ensures
        b == is_password_hash(s@),
{
    argon2::PasswordHash::new(s).is_ok()
}

/// `argon2::Argon2::verify_password` with the default parameters, on the
/// bytes of `password` and the hash read from `hash`.
/// Trusted: the result is the one that the name `password_verifies` stands
/// for.
#[verifier::external_body]
pub(crate) fn verifies(hash: &str, password: &str) -> (b: bool)
    requires
        is_password_hash(hash@),
    ensures
        b == password_verifies(hash@, password@),
{
    let hash = argon2::PasswordHash::new(hash).unwrap();
    Argon2::default().verify_password(password.as_bytes(), &hash).is_ok()
}

/// Checks the password `password_candidate` against the stored text
/// `expected_password_hash`.
pub fn verify_password_hash(expected_password_hash: &str, password_candidate: &str) -> (r:
    PasswordCheck)
    ensures
        r == password_check(expected_password_hash@, password_candidate@),
{
    if !parses_as_hash(expected_password_hash) {
        PasswordCheck::Malformed
    } else if verifies(expected_password_hash, password_candidate) {
        PasswordCheck::Match
    } else {
        PasswordCheck::Mismatch
    }
}

/// `argon2::Argon2::hash_password` with Argon2id, version 19, 15000 KiB of
/// memory, 2 passes and 1 lane, under a salt that
/// `argon2::password_hash::SaltString::generate` draws from the generator of
/// the current thread: the hash in PHC string format, or `None` where hashing
/// fails.
/// Trusted: nothing is claimed of the hash, which differs from call to call.
#[verifier::external_body]
pub(crate) fn compute_password_hash(password: &str) -> (r: Option<String>)
{
    let salt = SaltString::generate(&mut rand::thread_rng());
    let params = argon2::Params::new(15000, 2, 1, None).ok()?;
    Argon2::new(argon2::Algorithm::Argon2id, argon2::Version::V0x13, params).hash_password(
        password.as_bytes(),
        &salt,
    ).ok().map(|hash| hash.to_string())
}

/// A user name and a password, as a client gave them. It cannot be printed,
/// so that no password reaches a log.
pub struct Credentials {
    pub username: String,
    pub password: String,
}

/// What is stored of an editor: the identifier and the hash of the password.
pub struct StoredCredentials {
    pub user_id: u128,
    pub password_hash: String,
}

/// How checking credentials fails.
#[derive(Debug)]
pub enum AuthError {
    /// The user is not known or the password is wrong; the text says which,
    /// for the log.
    InvalidCredentials(String),
    /// The check could not be made; the text says why.
    UnexpectedError(String),
}

impl AuthError {
    /// The message of the error: "Invalid credentials" whatever was wrong
    /// with them, else what went wrong.
    pub open spec fn message(&self) -> Seq<char> {
        match self {
            AuthError::InvalidCredentials(_) => "Invalid credentials"@,
            AuthError::UnexpectedError(m) => m@,
        }
    }

    /// The message of the error, as text.
    pub fn to_string(&self) -> (s: String)
        ensures
            s@ == self.message(),
    {
        match self {
            AuthError::InvalidCredentials(_) => "Invalid credentials".to_owned(),
            AuthError::UnexpectedError(m) => m.clone(),
        }
    }
}

/// The hash that a password is checked against where the user is not known,
/// so that the check takes as long as for a known user.
pub fn fallback_password_hash() -> (hash: &'static str)
    ensures
        hash@ == fallback_hash(),
{
    "$argon2id$v=19$m=15000,t=2,p=1$gZiV/M1gPc22ElAH/Jh1Hw$CWOrkoo7oJBQ/iyh7uJ0LO2aLEfrHwTWllSAxT0zRno"
}

/// The text of the fallback hash.
pub open spec fn fallback_hash() -> Seq<char> {
    "$argon2id$v=19$m=15000,t=2,p=1$gZiV/M1gPc22ElAH/Jh1Hw$CWOrkoo7oJBQ/iyh7uJ0LO2aLEfrHwTWllSAxT0zRno"@
}

/// The hash that the password is checked against: the stored one, or the
/// fallback where nothing is stored.
pub open spec fn expected_hash(stored: Option<StoredCredentials>) -> Seq<char> {
    match stored {
        Some(s) => s.password_hash@,
        None => fallback_hash(),
    }
}

/// Whether the credentials are those of a stored user: the user is stored,
/// and the password gives the stored hash.
pub open spec fn credentials_valid(password: Seq<char>, stored: Option<StoredCredentials>) -> bool {
    stored is Some && password_check(stored->0.password_hash@, password) == PasswordCheck::Match
}

/// What checking credentials comes to.
pub enum Verdict {
    /// The credentials are those of this user.
    User(u128),
    /// The credentials are refused, for this reason.
    Invalid(Seq<char>),
    /// The check could not be made, for this reason.
    Unexpected(Seq<char>),
}

/// What checking the password `password` comes to, where `stored` is what
/// the lookup of the user gave, or the reason why it failed.
pub open spec fn verdict(
    password: Seq<char>,
    stored: Result<Option<StoredCredentials>, String>,
) -> Verdict {
    match stored {
        Err(reason) => Verdict::Unexpected(reason@),
        Ok(found) => match password_check(expected_hash(found), password) {
            PasswordCheck::Malformed => Verdict::Unexpected(
                "Failed to parse hash in PHC string format"@,
            ),
            PasswordCheck::Mismatch => Verdict::Invalid("Invalid password"@),
            PasswordCheck::Match => match found {
                Some(s) => Verdict::User(s.user_id),
                None => Verdict::Invalid("Unknown username."@),
            },
        },
    }
}

/// The verdict that a result stands for.
pub open spec fn verdict_of(r: Result<u128, AuthError>) -> Verdict {
    match r {
        Ok(id) => Verdict::User(id),
        Err(AuthError::InvalidCredentials(m)) => Verdict::Invalid(m@),
        Err(AuthError::UnexpectedError(m)) => Verdict::Unexpected(m@),
    }
}

/// Checks `credentials` against what is stored under their user name:
/// `stored` is what the lookup gave, or the reason why it failed.
///
/// The password is always checked, against the fallback hash where the user
/// is not known, so that the time taken does not tell whether a user exists.
/// The user's identifier is returned exactly where the user is stored and
/// the password gives the stored hash; a user who is not stored is refused
/// even where the password gives the fallback hash.
pub fn validate_credentials(
    credentials: Credentials,
    stored: Result<Option<StoredCredentials>, String>,
) -> (r: Result<u128, AuthError>)
    ensures
        verdict_of(r) == verdict(credentials.password@, stored),
{
    let found = match stored {
        Ok(found) => found,
        Err(reason) => {
            return Err(AuthError::UnexpectedError(reason));
        },
    };
    let mut user_id: Option<u128> = None;
    let mut expected_password_hash = fallback_password_hash().to_owned();
    if let Some(s) = found {
        user_id = Some(s.user_id);
        expected_password_hash = s.password_hash;
    }
    match verify_password_hash(expected_password_hash.as_str(), credentials.password.as_str()) {
        PasswordCheck::Malformed => Err(
            AuthError::UnexpectedError("Failed to parse hash in PHC string format".to_owned()),
        ),
        PasswordCheck::Mismatch => Err(
            AuthError::InvalidCredentials("Invalid password".to_owned()),
        ),
        PasswordCheck::Match => match user_id {
            Some(id) => Ok(id),
            None => Err(AuthError::InvalidCredentials("Unknown username.".to_owned())),
        },
    }
}

/// The new row of a user whose password changes: the identifier, and the
/// hash of the new password under a fresh salt. An error where hashing
/// fails.
pub fn change_password(user_id: u128, password: &str) -> (r: Result<StoredCredentials, String>)
    ensures
        r matches Ok(s) ==> s.user_id == user_id,
        r matches Err(e) ==> e@ == "Failed to hash password"@,
{
    match compute_password_hash(password) {
        Some(password_hash) => Ok(StoredCredentials { user_id, password_hash }),
        None => Err("Failed to hash password".to_owned()),
    }
}

} // verus!
