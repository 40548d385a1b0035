//! Randomness from `rand`'s thread-local generator.
use rand::distributions::Alphanumeric;
use rand::{Rng, RngCore};
use vstd::prelude::*;

verus! {

/// An ASCII letter or decimal digit.
pub open spec fn is_ascii_alphanumeric(c: char) -> bool {
    ||| 'a' <= c <= 'z'
    ||| 'A' <= c <= 'Z'
    ||| '0' <= c <= '9'
}

/// `len` characters drawn from `rand::distributions::Alphanumeric` with
/// `thread_rng()`. Claimed: the string has exactly `len` characters and each
/// is an ASCII letter or digit (the distribution's documented range); which
/// characters come out is left unsaid, as it rests on chance. `thread_rng`
/// panics if the system's entropy source fails when it is first seeded; no
/// clause can rule that out.
#[verifier::external_body]
pub(crate) fn random_alphanumeric(len: usize) -> (s: String)
    ensures
        s@.len() == len,
        forall|i: int| 0 <= i < s@.len() ==> is_ascii_alphanumeric(#[trigger] s@[i]),
{
    rand::thread_rng().sample_iter(&Alphanumeric).take(len).map(char::from).collect()
}

/// `len` bytes from `RngCore::fill_bytes` on `thread_rng()`. Claimed: the
/// vector has `len` bytes; their values rest on chance and are left unsaid,
/// as is the panic of `thread_rng` when the system's entropy source fails.
#[verifier::external_body]
pub(crate) fn random_bytes(len: usize) -> (b: Vec<u8>)
    ensures
        b@.len() == len,
{
    let mut buf = vec![0u8; len];
    rand::thread_rng().fill_bytes(&mut buf);
    buf
}

} // verus!
