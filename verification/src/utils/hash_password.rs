//! Hashing of passwords, left to bcrypt.

use vstd::prelude::*;

verus! {

/// The error of a bcrypt operation.
#[verifier::external_type_specification]
#[verifier::external_body]
pub struct ExBcryptError(bcrypt::BcryptError);

/// Whether `password` is the password that `hashed` was made from; `None`
/// where `hashed` is no hash that bcrypt can read.
pub uninterp spec fn password_check(password: Seq<char>, hashed: Seq<char>) -> Option<bool>;

/// Hashes a password under a fresh random salt.
///
/// Calls `bcrypt::hash` with `bcrypt::DEFAULT_COST`. Nothing is claimed of
/// the result: the salt is random.
#[verifier::external_body]
pub fn hash_password(password: &str) -> (hashed: Result<String, bcrypt::BcryptError>) {
    bcrypt::hash(password, bcrypt::DEFAULT_COST)
}

/// Compares a password with a hash.
///
/// Calls `bcrypt::verify`. The contract gives the outcome a name: it depends
/// on the password and the hash alone.
#[verifier::external_body]
pub fn compare_passwords(password: &str, hashed_password: &str) -> (same: Result<
    bool,
    bcrypt::BcryptError,
>)
    ensures
        password_check(password@, hashed_password@) == match same {
            Ok(b) => Some(b),
            Err(_) => None,
        },
{
    bcrypt::verify(password, hashed_password)
}

} // verus!
