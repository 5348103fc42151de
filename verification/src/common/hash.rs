//! Password hashing with Argon2.

use argon2::password_hash::rand_core::OsRng;
use argon2::password_hash::PasswordHash;
use argon2::password_hash::PasswordHasher;
use argon2::password_hash::PasswordVerifier;
use argon2::password_hash::SaltString;
use argon2::Argon2;
use vstd::prelude::*;

verus! {

/// Why a password could not be hashed. Whatever went wrong is reported as an
/// invalid algorithm.
#[derive(Debug, Clone, Copy, PartialEq, Eq, Structural)]
pub enum HashError {
    AlgorithmInvalid,
}

impl HashError {
    /// How the failure reads.
    pub open spec fn text(self) -> Seq<char> {
        "algorithm identifier invalid"@
    }

    /// How the failure reads.
    pub fn message(&self) -> (message: String)
        ensures
            message@ == self.text(),
    {
        String::from_str("algorithm identifier invalid")
    }
}

/// The password hash, as a PHC string, that Argon2 with its default
/// parameters derives from a password under a salt in B64, or nothing where
/// Argon2 refuses the salt or the password.
pub uninterp spec fn phc_string(password: Seq<char>, salt: Seq<char>) -> Option<Seq<char>>;

/// Whether a text is a PHC string whose hash Argon2 derives again from the
/// password, under the salt and the parameters that the string names.
pub uninterp spec fn verifies(password_hash: Seq<char>, password: Seq<char>) -> bool;

/// `SaltString::generate` with the random numbers of the operating system:
/// a fresh salt in B64. Nothing is known of it before it is made.
#[verifier::external_body]
fn fresh_salt() -> (salt: String) {
    SaltString::generate(&mut OsRng).as_str().to_owned()
}

/// `Argon2::hash_password` with the default parameters: the PHC string for
/// a password under a salt. The result depends on the password and the salt
/// alone.
#[verifier::external_body]
fn derive(password: &str, salt: &str) -> (hashed: Option<String>)
    ensures
        hashed.deep_view() == phc_string(password@, salt@),
{
    let salt = match SaltString::from_b64(salt) {
        Ok(salt) => salt,
        Err(_) => return None,
    };
    match Argon2::default().hash_password(password.as_bytes(), &salt) {
        Ok(hashed) => Some(hashed.to_string()),
        Err(_) => None,
    }
}

/// `Argon2::verify_password` on a parsed PHC string: whether the password is
/// the one that the string was derived from. A text that is no PHC string
/// verifies nothing. The result depends on the two texts alone.
#[verifier::external_body]
fn check(password_hash: &str, password: &str) -> (ok: bool)
    ensures
        ok == verifies(password_hash@, password@),
{
    match PasswordHash::new(password_hash) {
        Ok(parsed) => Argon2::default().verify_password(password.as_bytes(), &parsed).is_ok(),
        Err(_) => false,
    }
}

/// Whether `hashed` is what hashing a password under a salt gives: the PHC
/// string that Argon2 derives, or, where Argon2 derives none, the failure
/// that stands for every failure.
pub open spec fn hashed_under(
    password: Seq<char>,
    salt: Seq<char>,
    hashed: Result<String, HashError>,
) -> bool {
    match phc_string(password, salt) {
        Some(text) => hashed is Ok && hashed->Ok_0@ == text,
        None => hashed == Err::<String, HashError>(HashError::AlgorithmInvalid),
    }
}

/// Hashes a password under the given salt.
pub fn hash_password_with_salt(password: &str, salt: &str) -> (hashed: Result<String, HashError>)
    ensures
        hashed_under(password@, salt@, hashed),
{
    match derive(password, salt) {
        Some(text) => Ok(text),
        None => Err(HashError::AlgorithmInvalid),
    }
}

/// Hashes a password under a fresh salt. Which salt it is cannot be known
/// beforehand; the result is what hashing the password under that salt
/// gives: it succeeds exactly if Argon2 derives a PHC string under it, and
/// then returns that string.
pub fn hash_password(password: &str) -> (hashed: Result<String, HashError>)
    ensures
        exists|salt: Seq<char>| hashed_under(password@, salt, hashed),
{
    let salt = fresh_salt();
    let hashed = hash_password_with_salt(password, salt.as_str());
    assert(hashed_under(password@, salt@, hashed));
    hashed
}

/// Whether a password is the one that a stored hash was derived from.
pub fn verify_password(password_hash: &str, password: &str) -> (ok: bool)
    ensures
        ok == verifies(password_hash@, password@),
{
    check(password_hash, password)
}

} // verus!
