//! Passwords: hashing and checking are left to bcrypt; this module holds
//! the rules around them.

use vstd::prelude::*;
use crate::error::result_view;

verus! {

/// The fewest bytes that a password may have.
pub const MIN_PASSWORD_BYTES: usize = 6;

/// What `bcrypt::verify` answers for a password and a stored hash: whether
/// they match, or the text of bcrypt's failure where the hash is malformed.
pub uninterp spec fn bcrypt_verdict(password: Seq<char>, hash: Seq<char>) -> Result<bool, Seq<char>>;

/// Calls `bcrypt::verify` and words its failure with the failure's own
/// text. The answer depends on the two texts alone; the contract names it
/// and proves nothing about it.
#[verifier::external_body]
pub(crate) fn verify_password(password: &str, hash: &str) -> (r: Result<bool, String>)
    ensures
        result_view(r) == bcrypt_verdict(password@, hash@),
{
    bcrypt::verify(password, hash).map_err(|e| e.to_string())
}

/// Calls `bcrypt::hash` at bcrypt's default cost and words its failure
/// with the failure's own text. bcrypt salts every hash at random, so the
/// hash itself is not stated. What holds of every hash it gives is that
/// `bcrypt::verify` accepts the password against it: the hash carries its
/// salt and cost, and checking recomputes with both.
#[verifier::external_body]
pub(crate) fn hash_password(password: &str) -> (r: Result<String, String>)
    ensures
        match r {
            Ok(hash) => bcrypt_verdict(password@, hash@) == Ok::<bool, Seq<char>>(true),
            Err(_) => true,
        },
{
    bcrypt::hash(password, bcrypt::DEFAULT_COST).map_err(|e| e.to_string())
}

/// The password is long enough: at least six bytes in UTF-8.
pub open spec fn long_enough(password: Seq<char>) -> bool {
    vstd::utf8::encode_utf8(password).len() >= 6
}

/// Whether the password is long enough.
pub fn is_long_enough(password: &str) -> (r: bool)
    ensures
        r == long_enough(password@),
{
    password.as_bytes().len() >= MIN_PASSWORD_BYTES
}

} // verus!
