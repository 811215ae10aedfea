//! The boundary to the `rand` crate: a declared generator type and the two
//! calls the scene generator draws from. Everything else about randomness is
//! verified code that holds for every value these calls may return.

use vstd::prelude::*;
use rand::Rng;
use rand::SeedableRng;

verus! {

#[verifier::external_type_specification]
#[verifier::external_body]
pub struct ExStdRng(rand::rngs::StdRng);

/// Relies on rand::SeedableRng::seed_from_u64: builds a generator from a
/// seed. Nothing is promised of the values it will produce.
#[verifier::external_body]
pub(crate) fn rng_from_seed(seed: u64) -> rand::rngs::StdRng {
    rand::rngs::StdRng::seed_from_u64(seed)
}

/// Relies on rand::Rng::random_range on an `i64` half-open range: it returns
/// a value of that range, and panics on an empty range, which the `requires`
/// excludes. Which value comes back is not promised: callers hold for every
/// outcome.
#[verifier::external_body]
pub(crate) fn random_in_range(rng: &mut rand::rngs::StdRng, lo: i64, hi: i64) -> (r: i64)
    requires
        lo < hi,
    ensures
        lo <= r < hi,
{
    rng.random_range(lo..hi)
}

} // verus!
