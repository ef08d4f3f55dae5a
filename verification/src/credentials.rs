//! Password hashing and checking with bcrypt.

use vstd::prelude::*;
use crate::text::digit_char;

verus! {

#[verifier::external_type_specification]
#[verifier::external_body]
pub struct ExBcryptError(bcrypt::BcryptError);

/// What `bcrypt::verify(password, hash)` returns: `None` for an error (a text
/// that is not a bcrypt hash, or one with a cost outside 4..=31), else whether
/// `password` matches `hash`.
pub uninterp spec fn bcrypt_verify_result(password: Seq<char>, hash: Seq<char>) -> Option<bool>;

/// How a bcrypt hash of version 2b at `cost` (below 100) begins:
/// `$2b$`, the cost in two digits, `$`.
pub open spec fn bcrypt_prefix(cost: nat) -> Seq<char> {
    seq!['$', '2', 'b', '$', digit_char(cost / 10), digit_char(cost % 10), '$']
}

/// The bcrypt cost the services hash with (bcrypt's `DEFAULT_COST`).
pub const PASSWORD_HASH_COST: u32 = 12;

/// `bcrypt::hash(password, cost)`: hashes the UTF-8 bytes of `password` under a
/// fresh random salt. Trusted: a hash that comes back is 60 characters long,
/// begins with `bcrypt_prefix(cost)` (the crate writes `${version}${cost:02}$`
/// with version `2b`, then the salt and digest), and
/// `bcrypt::verify` accepts `password` against it (the crate formats the salt
/// and digest it computed, and `verify` recomputes the digest from them).
/// An error comes only from the random source; which salt is drawn is not stated.
#[verifier::external_body]
pub(crate) fn bcrypt_hash(password: &str, cost: u32) -> (r: Result<String, bcrypt::BcryptError>)
    requires
        4 <= cost <= 31,
    ensures
        r matches Ok(h) ==> h@.len() == 60 && bcrypt_verify_result(password@, h@) == Some(true),
        r matches Ok(h) ==> h@.subrange(0, 7) == bcrypt_prefix(cost as nat),
{
    bcrypt::hash(password, cost)
}

/// `bcrypt::verify(password, hash)`. Trusted: the result is the one named by
/// `bcrypt_verify_result`, an error exactly where that name gives `None`.
#[verifier::external_body]
pub(crate) fn bcrypt_verify(password: &str, hash: &str) -> (r: Result<bool, bcrypt::BcryptError>)
    ensures
        match r {
            Ok(b) => bcrypt_verify_result(password@, hash@) == Some(b),
            Err(_) => bcrypt_verify_result(password@, hash@) is None,
        },
{
    bcrypt::verify(password, hash)
}

/// Hashes a password for storage at `PASSWORD_HASH_COST`; `None` where the
/// random source fails.
pub fn hash_password(password: &str) -> (r: Option<String>)
    ensures
        r matches Some(h) ==> h@.len() == 60 && bcrypt_verify_result(password@, h@) == Some(true),
        r matches Some(h) ==> h@.subrange(0, 7) == bcrypt_prefix(PASSWORD_HASH_COST as nat),
{
    match bcrypt_hash(password, PASSWORD_HASH_COST) {
        Ok(h) => Some(h),
        Err(_) => None,
    }
}

/// Checks `password` against a stored hash; `None` where the stored text is
/// not a usable bcrypt hash.
pub fn check_password(password: &str, hash: &str) -> (r: Option<bool>)
    ensures
        r == bcrypt_verify_result(password@, hash@),
{
    match bcrypt_verify(password, hash) {
        Ok(b) => Some(b),
        Err(_) => None,
    }
}

} // verus!
