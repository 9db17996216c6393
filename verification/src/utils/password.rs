//! One-way hashing of passwords with bcrypt.

use vstd::prelude::*;
use vstd::string::StringExecFns;
use crate::error::{AppError, AppErrorView};
use crate::text::has_prefix;

verus! {

/// The error type of the bcrypt crate.
#[verifier::external_type_specification]
#[verifier::external_body]
pub struct ExBcryptError(bcrypt::BcryptError);

/// What `bcrypt::verify` answers for a password and a stored hash:
/// `Some(true)` where the password is the one that was hashed, `Some(false)`
/// where it is not, `None` where the stored text is no bcrypt hash.
pub uninterp spec fn bcrypt_verdict(password: Seq<char>, hash: Seq<char>) -> Option<bool>;

/// `bcrypt::hash` at the crate's default cost, with a salt drawn from the
/// operating system. The salt makes the hash differ from call to call; what
/// holds of every hash that comes back is that `bcrypt::verify` accepts the
/// password against it.
#[verifier::external_body]
fn bcrypt_hash(password: &str) -> (r: Result<String, bcrypt::BcryptError>)
    ensures
        r matches Ok(h) ==> bcrypt_verdict(password@, h@) == Some(true),
{
    bcrypt::hash(password, bcrypt::DEFAULT_COST)
}

/// `bcrypt::verify`: recomputes the hash of the password with the cost and
/// salt found in the stored hash and compares. It fails where the stored
/// text cannot be taken apart as a bcrypt hash.
#[verifier::external_body]
fn bcrypt_verify(password: &str, hash: &str) -> (r: Result<bool, bcrypt::BcryptError>)
    ensures
        match r {
            Ok(b) => bcrypt_verdict(password@, hash@) == Some(b),
            Err(_) => bcrypt_verdict(password@, hash@) is None,
        },
{
    bcrypt::verify(password, hash)
}

/// The words of a bcrypt error, as its `Display` writes them.
#[verifier::external_body]
fn bcrypt_error_text(e: &bcrypt::BcryptError) -> (text: String) {
    e.to_string()
}

/// Hashes a password for storage. The hash is salted, so two calls give
/// different hashes; each of them is accepted by [`verify_password`] for the
/// same password. Fails with `InternalServerError` where bcrypt does.
pub fn hash_password(password: &str) -> (r: Result<String, AppError>)
    ensures
        match r {
            Ok(h) => bcrypt_verdict(password@, h@) == Some(true),
            Err(e) => e@ is InternalServerError && has_prefix(
                e@.message(),
                "Failed to hash password: "@,
            ),
        },
{
    match bcrypt_hash(password) {
        Ok(h) => Ok(h),
        Err(e) => {
            let text = bcrypt_error_text(&e);
            let message = String::from_str("Failed to hash password: ").concat(text.as_str());
            assert(message@.subrange(0, "Failed to hash password: "@.len() as int)
                =~= "Failed to hash password: "@);
            Err(AppError::InternalServerError(message))
        },
    }
}

/// What [`verify_password`] answers, given bcrypt's verdict.
pub open spec fn password_check(verdict: Option<bool>, r: Result<bool, AppErrorView>) -> bool {
    match verdict {
        Some(b) => r == Ok::<bool, AppErrorView>(b),
        None => r matches Err(e) && e is InternalServerError && has_prefix(
            e.message(),
            "Failed to verify password: "@,
        ),
    }
}

/// Checks a password against a stored hash: `Ok(true)` where it is the
/// password that was hashed, `Ok(false)` where it is another, and
/// `InternalServerError` where the stored text is no bcrypt hash.
pub fn verify_password(password: &str, hash: &str) -> (r: Result<bool, AppError>)
    ensures
        match bcrypt_verdict(password@, hash@) {
            Some(b) => r == Ok::<bool, AppError>(b),
            None => r matches Err(e) && e@ is InternalServerError && has_prefix(
                e@.message(),
                "Failed to verify password: "@,
            ),
        },
{
    match bcrypt_verify(password, hash) {
        Ok(b) => Ok(b),
        Err(e) => {
            let text = bcrypt_error_text(&e);
            let message = String::from_str("Failed to verify password: ").concat(text.as_str());
            assert(message@.subrange(0, "Failed to verify password: "@.len() as int)
                =~= "Failed to verify password: "@);
            Err(AppError::InternalServerError(message))
        },
    }
}

} // verus!
