//! The two random sources: the operating system's entropy for prefixes, and
//! the thread's fast generator for sequences and increments.

use vstd::prelude::*;
use rand::distributions::Alphanumeric;
use rand::rngs::OsRng;
use rand::Rng;
use crate::alphabet::is_alphanumeric;

verus! {

/// One sample of `rand::distributions::Alphanumeric`, drawn by `Rng::sample`
/// from `rand::rngs::OsRng`.
///
/// Trusted: the sample is an ASCII letter or digit, as the distribution picks
/// it from a table of exactly these 62 bytes. Which one is not stated. The
/// call panics when the operating system's entropy source fails.
#[verifier::external_body]
pub(crate) fn entropy_alphanumeric() -> (sample: u8)
    ensures
        is_alphanumeric(sample),
{
    OsRng.sample(Alphanumeric)
}

/// A number drawn by `Rng::gen_range` from `rand::thread_rng()` over the
/// half-open range from `low` to `high`.
///
/// Trusted: the number is at least `low` and below `high`. Which one is not
/// stated. `gen_range` panics on an empty range, which `requires` leaves out;
/// the thread's generator panics when it cannot be seeded.
#[verifier::external_body]
pub(crate) fn pseudo_random_in(low: u64, high: u64) -> (drawn: u64)
    requires
        low < high,
    ensures
        low <= drawn < high,
{
    rand::thread_rng().gen_range(low..high)
}

} // verus!
