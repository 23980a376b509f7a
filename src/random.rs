//! Randomness: the generators the library draws salts, codes and identifiers from.
use vstd::prelude::*;
use rand::Rng;
use crate::text::ascii_alphanumeric;
use vstd::utf8::is_ascii_chars;

verus! {

/// Relies on rand's `Rng::gen_range` over the thread-local generator: a value in
/// `0..n` (the range must not be empty).
#[verifier::external_body]
pub(crate) fn random_below(n: usize) -> (r: usize)
    requires
        n > 0,
    ensures
        r < n,
{
    rand::thread_rng().gen_range(0..n)
}

/// Relies on `rand::random::<u8>`: any byte.
#[verifier::external_body]
pub(crate) fn random_byte() -> u8 {
    rand::random::<u8>()
}

/// Relies on sampling rand's `Alphanumeric` distribution: an ASCII letter or digit.
#[verifier::external_body]
pub(crate) fn random_alphanumeric() -> (r: char)
    ensures
        ascii_alphanumeric(r),
{
    char::from(rand::thread_rng().sample(rand::distributions::Alphanumeric))
}

/// Relies on `Uuid::new_v4` and its hyphenated text form: 36 ASCII characters
/// (hexadecimal digits and hyphens).
#[verifier::external_body]
pub(crate) fn new_uuid_string() -> (r: String)
    ensures
        r@.len() == 36,
        is_ascii_chars(r@),
{
    uuid::Uuid::new_v4().to_string()
}

} // verus!
