//! Password hashes.
use vstd::prelude::*;

verus! {

/// The errors of `bcrypt`.
#[verifier::external_type_specification]
#[verifier::external_body]
pub struct ExBcryptError(bcrypt::BcryptError);

/// What `bcrypt::verify` says of a password and a hash; nothing where it fails.
pub uninterp spec fn bcrypt_verdict(password: Seq<char>, hash: Seq<char>) -> Option<bool>;

/// Calls `bcrypt::verify`. What it answers, and whether it fails, depends on the password and the
/// hash alone. Which error it fails with is left open.
#[verifier::external_body]
fn bcrypt_verify(password: &str, hash: &str) -> (verdict: Result<bool, bcrypt::BcryptError>)
    ensures
        bcrypt_verdict(password@, hash@) == (match verdict {
            Ok(valid) => Some(valid),
            Err(_) => None,
        }),
{
    bcrypt::verify(password, hash)
}

/// Whether a password goes with a hash. None goes with a hash that cannot be read.
pub open spec fn goes_with(password: Seq<char>, hash: Seq<char>) -> bool {
    bcrypt_verdict(password, hash) == Some(true)
}

/// Checks a password against a hash.
pub fn password_valid(password: &str, hash: &str) -> (valid: bool)
    ensures
        valid == goes_with(password@, hash@),
{
    match bcrypt_verify(password, hash) {
        Ok(valid) => valid,
        Err(_) => false,
    }
}

} // verus!
