//! The password-hashing primitives the library calls: Argon2 (current digests)
//! and bcrypt (older digests still accepted).
use vstd::prelude::*;
use argon2::password_hash::rand_core::OsRng;
use argon2::password_hash::SaltString;
use argon2::{Argon2, PasswordHash, PasswordHasher, PasswordVerifier};
use crate::text::byte_len;

verus! {

#[verifier::external_type_specification]
#[verifier::external_body]
pub struct ExPasswordHashError(argon2::password_hash::Error);

#[verifier::external_type_specification]
#[verifier::external_body]
pub struct ExBcryptError(bcrypt::BcryptError);

/// Argon2 verification accepts `password` against the PHC string `digest`.
pub uninterp spec fn argon2_accepts(password: Seq<char>, digest: Seq<char>) -> bool;

/// bcrypt verification accepts `password` against the modular-crypt string `digest`.
pub uninterp spec fn bcrypt_accepts(password: Seq<char>, digest: Seq<char>) -> bool;

/// A PHC string of the Argon2id algorithm: it starts with `$argon2id$`.
pub open spec fn argon2id_tagged(digest: Seq<char>) -> bool {
    digest.len() >= 10 && digest.subrange(0, 10) == "$argon2id$"@
}

/// A bcrypt modular-crypt string of version 2b: it starts with `$2b$`.
pub open spec fn bcrypt_tagged(digest: Seq<char>) -> bool {
    digest.len() >= 4 && digest.subrange(0, 4) == "$2b$"@
}

/// `text` reads, through `SaltString::from_b64` and its decoding, as a salt that
/// Argon2 accepts (8 to 64 bytes).
pub uninterp spec fn argon2_salt(text: Seq<char>) -> bool;

/// Relies on `SaltString::generate` over the operating system's generator: a fresh
/// random salt of 16 bytes, in the B64 text it is kept as.
#[verifier::external_body]
pub(crate) fn generate_salt() -> (r: String)
    ensures
        argon2_salt(r@),
{
    SaltString::generate(&mut OsRng).as_str().to_string()
}

/// Relies on Argon2's `PasswordHasher::hash_password` with default parameters
/// (algorithm Argon2id), over the salt read by `SaltString::from_b64`: the PHC
/// string it yields names the algorithm and is accepted by Argon2 verification of
/// the same password. It fails only for a salt it cannot read or use, or a
/// password of more than `u32::MAX` bytes.
#[verifier::external_body]
pub(crate) fn argon2_hash(password: &str, salt: &str) -> (r: Result<
    String,
    argon2::password_hash::Error,
>)
    ensures
        argon2_salt(salt@) && byte_len(password@) <= u32::MAX ==> r is Ok,
        r matches Ok(h) ==> argon2_accepts(password@, h@) && argon2id_tagged(h@),
{
    let salt = SaltString::from_b64(salt)?;
    Argon2::default().hash_password(password.as_bytes(), &salt).map(|h| h.to_string())
}

/// Relies on Argon2's `PasswordVerifier::verify_password` over the digest read by
/// `PasswordHash::new`; a digest that does not read as a PHC string is not
/// accepted, and one without a `$` (a PHC string starts with one) does not read.
#[verifier::external_body]
pub(crate) fn argon2_verify(password: &str, digest: &str) -> (r: bool)
    ensures
        r == argon2_accepts(password@, digest@),
        !digest@.contains('$') ==> !r,
{
    match PasswordHash::new(digest) {
        Ok(parsed) => Argon2::default().verify_password(password.as_bytes(), &parsed).is_ok(),
        Err(_) => false,
    }
}

/// Relies on `bcrypt::hash`: the digest it yields, in the `$2b$` format, is
/// accepted by `bcrypt::verify` of the same password.
#[verifier::external_body]
pub(crate) fn bcrypt_hash(password: &str, cost: u32) -> (r: Result<String, bcrypt::BcryptError>)
    ensures
        r matches Ok(h) ==> bcrypt_accepts(password@, h@) && bcrypt_tagged(h@),
{
    bcrypt::hash(password, cost)
}

/// Relies on `bcrypt::verify`: it answers `Ok(true)` exactly when it accepts, and
/// refuses a digest without `$` separators as malformed.
#[verifier::external_body]
pub(crate) fn bcrypt_verify(password: &str, digest: &str) -> (r: Result<bool, bcrypt::BcryptError>)
    ensures
        (r matches Ok(b) && b) == bcrypt_accepts(password@, digest@),
        !digest@.contains('$') ==> r is Err,
{
    bcrypt::verify(password, digest)
}

} // verus!
