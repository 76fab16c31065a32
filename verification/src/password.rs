//! Credential verifier: one-way salted password hashing and
//! constant-time verification, through bcrypt.

use vstd::prelude::*;

verus! {

/// Cost factor used when hashing passwords. Fixed by configuration;
/// the stated default of the hashing library.
pub const HASH_COST: u32 = 12;

/// Whether `bcrypt::verify` accepts `password` against `digest`.
/// Deterministic: the salt and cost are read back out of the digest
/// itself, so the outcome depends on the two arguments alone. A digest
/// that is not well-formed bcrypt output verifies as false.
pub uninterp spec fn bcrypt_matches(password: Seq<char>, digest: Seq<char>) -> bool;

/// Relies on bcrypt::verify: deterministic in the password and the
/// digest, with a malformed digest (its error case) mapped to false.
#[verifier::external_body]
pub(crate) fn password_verify(password: &String, digest: &String) -> (r: bool)
    ensures
        r == bcrypt_matches(password@, digest@),
{
    bcrypt::verify(password.as_bytes(), digest.as_str()).unwrap_or(false)
}

/// Relies on bcrypt::hash: a freshly salted digest, 60 characters of
/// ASCII, which bcrypt::verify accepts for the password it was made
/// from. Fails when the cost factor is out of the supported range or
/// no randomness is available.
#[verifier::external_body]
pub(crate) fn password_hash(password: &String, cost: u32) -> (r: Result<String, ()>)
    ensures
        (r matches Ok(h) ==> bcrypt_matches(password@, h@) && h@.len() == 60),
{
    bcrypt::hash(password.as_bytes(), cost).map_err(|_| ())
}

} // verus!
