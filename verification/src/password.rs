//! Password verifiers. Hashing and checking is `password-auth`'s.

use vstd::prelude::*;
use vstd::string::StringSliceAdditionalSpecFns;

verus! {

/// Greatest number of bytes of a password that can be hashed.
pub const MAX_PASSWORD_LEN: usize = 0xFFFF_FFFF;

/// Whether `password-auth` accepts a password against a verifier.
pub uninterp spec fn password_verifies(password: Seq<char>, hash: Seq<char>) -> bool;

/// `password_auth::generate_hash`: a verifier salted at random, so two calls
/// on one password differ; each is one that the password verifies against.
#[verifier::external_body]
fn salted_hash(password: &str) -> (r: String)
    requires
        password.spec_bytes().len() <= MAX_PASSWORD_LEN,
    ensures
        password_verifies(password@, r@),
{
    password_auth::generate_hash(password)
}

/// `password_auth::verify_password`: the outcome is a function of password
/// and verifier alone. A verifier that cannot be read verifies nothing.
#[verifier::external_body]
fn hash_accepts(password: &str, hash: &str) -> (r: bool)
    ensures
        r == password_verifies(password@, hash@),
{
    password_auth::verify_password(password, hash).is_ok()
}

/// Makes a verifier for a password. `None` where the password has more than
/// `MAX_PASSWORD_LEN` bytes.
pub fn generate_hash(password: &str) -> (r: Option<String>)
    ensures
        r.is_some() == (password.spec_bytes().len() <= MAX_PASSWORD_LEN),
        r matches Some(hash) ==> password_verifies(password@, hash@),
{
    if password.as_bytes().len() > MAX_PASSWORD_LEN {
        None
    } else {
        Some(salted_hash(password))
    }
}

/// Whether a password verifies against a verifier.
pub fn verify_password(password: &str, hash: &str) -> (r: bool)
    ensures
        r == password_verifies(password@, hash@),
{
    hash_accepts(password, hash)
}

} // verus!
