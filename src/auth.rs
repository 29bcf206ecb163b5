//! Password hashes and the request shapes of the login endpoints.
use vstd::prelude::*;

use argon2::password_hash::rand_core::OsRng;
use argon2::password_hash::{PasswordHash, SaltString};
use argon2::{Argon2, PasswordHasher, PasswordVerifier};

verus! {

#[verifier::external_type_specification]
#[verifier::external_body]
pub struct ExPasswordHashError(argon2::password_hash::Error);

#[verifier::external_type_specification]
#[verifier::external_body]
pub struct ExSaltString(SaltString);

#[verifier::external_type_specification]
#[verifier::external_body]
pub struct ExPasswordHash<'a>(PasswordHash<'a>);

/// Credentials of a login attempt.
#[derive(Debug)]
pub struct LoginRequest {
    pub username: String,
    pub password: String,
}

/// A request to replace a password.
#[derive(Debug)]
pub struct ChangePasswordRequest {
    pub old_password: String,
    pub new_password: String,
}

/// A failure of the password hasher.
#[derive(Debug)]
pub enum HashedPasswordError {
    Argon2Error(argon2::password_hash::Error),
}

/// A password hash in PHC string form.
#[derive(Clone, Debug)]
pub struct HashedPassword(String);

impl View for HashedPassword {
    type V = Seq<char>;

    closed spec fn view(&self) -> Seq<char> {
        self.0@
    }
}

/// Whether `password_hash::PasswordHash::new` accepts `s` as a PHC string.
pub uninterp spec fn phc_parses(s: Seq<char>) -> bool;

/// Relies on `SaltString::generate` over the operating system's random source:
/// a fresh random salt. Nothing is known of its value.
#[verifier::external_body]
fn generate_salt() -> SaltString {
    SaltString::generate(&mut OsRng)
}

/// Relies on `PasswordHasher::hash_password` of the default Argon2 instance:
/// the PHC string of the hash of `password` under `salt`, or the hasher's error.
/// A PHC string is written starting with the `$` separator.
#[verifier::external_body]
fn argon2_hash(password: &str, salt: &SaltString) -> (r: Result<
    String,
    argon2::password_hash::Error,
>)
    ensures
        r is Ok ==> r->Ok_0@.len() > 0 && r->Ok_0@[0] == '$',
{
    Argon2::default().hash_password(password.as_bytes(), salt).map(|h| h.to_string())
}

/// Relies on `PasswordHash::new`: it parses `s` as a PHC string, and its
/// success depends on `s` alone, and an empty string is refused.
#[verifier::external_body]
fn parse_password_hash(s: &str) -> (r: Result<PasswordHash<'_>, argon2::password_hash::Error>)
    ensures
        r is Ok == phc_parses(s@),
        s@.len() == 0 ==> r is Err,
{
    PasswordHash::new(s)
}

/// Relies on `PasswordVerifier::verify_password` of the default Argon2
/// instance: whether `password` hashes to `hash` under its salt and parameters.
#[verifier::external_body]
fn argon2_verify(password: &str, hash: &PasswordHash<'_>) -> bool {
    Argon2::default().verify_password(password.as_bytes(), hash).is_ok()
}

impl HashedPassword {
    /// Hashes `password` with Argon2 under a fresh random salt.
    pub fn new_argon2(password: &str) -> (r: Result<Self, HashedPasswordError>)
        ensures
            r is Ok ==> r->Ok_0@.len() > 0 && r->Ok_0@[0] == '$',
    {
        let salt = generate_salt();
        match argon2_hash(password, &salt) {
            Ok(hash) => Ok(HashedPassword(hash)),
            Err(e) => Err(HashedPasswordError::Argon2Error(e)),
        }
    }

    /// The hash in PHC string form.
    pub fn str(&self) -> (r: &str)
        ensures
            r@ == self@,
    {
        self.0.as_str()
    }

    /// Whether `password` matches this hash; an error when the stored string is
    /// no PHC string.
    pub fn verify_password(&self, password: &str) -> (r: Result<bool, HashedPasswordError>)
        ensures
            r is Ok == phc_parses(self@),
            self@.len() == 0 ==> r is Err,
    {
        match parse_password_hash(self.0.as_str()) {
            Ok(parsed) => Ok(argon2_verify(password, &parsed)),
            Err(e) => Err(HashedPasswordError::Argon2Error(e)),
        }
    }
}

} // verus!
