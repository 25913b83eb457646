//! The pseudo-random generator that picks where the gain cycle begins.
//!
//! The generator is `rand`'s `StdRng`. Nothing is proved of what it
//! returns beyond the range of a draw; the functions here are the only
//! places where the library relies on it.

use rand::Rng;
use rand::SeedableRng;
use vstd::prelude::*;

verus! {

/// `rand::rngs::StdRng`, carried as an opaque value.
#[verifier::external_type_specification]
#[verifier::external_body]
pub struct ExStdRng(rand::rngs::StdRng);

/// Calls `StdRng::try_from_os_rng`: a generator seeded from the operating
/// system's entropy, or `None` where the system gives none. Nothing is
/// claimed of the generator.
#[verifier::external_body]
pub(crate) fn os_seeded() -> (rng: Option<rand::rngs::StdRng>) {
    rand::rngs::StdRng::try_from_os_rng().ok()
}

/// Calls `StdRng::seed_from_u64`: a generator whose stream is fixed by
/// `seed`. Nothing is claimed of the generator.
#[verifier::external_body]
pub(crate) fn seeded_from(seed: u64) -> (rng: rand::rngs::StdRng) {
    rand::rngs::StdRng::seed_from_u64(seed)
}

/// Calls `Rng::random_range` on `0..bound`: the range is not empty, so the
/// call does not panic, and the value it returns lies in the range. Which
/// value it is, is not claimed.
#[verifier::external_body]
pub(crate) fn draw_below(rng: &mut rand::rngs::StdRng, bound: u8) -> (draw: u8)
    requires
        bound > 0,
    ensures
        draw < bound,
{
    rng.random_range(0..bound)
}

/// Calls `StdRng::clone`: a generator in the same internal state. Nothing
/// is claimed of the copy.
#[verifier::external_body]
pub(crate) fn duplicate(rng: &rand::rngs::StdRng) -> (copy: rand::rngs::StdRng) {
    rng.clone()
}

} // verus!
