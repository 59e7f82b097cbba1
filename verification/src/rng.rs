//! The random source used by jitter, shape sampling and index choices.
//!
//! Randomness comes from the `rand` crate's thread-local generator. The
//! wrappers below state only what holds of every outcome: a draw from a
//! half-open range lies in that range. Nothing about the distribution is
//! assumed by any proof.

use rand::Rng;
use vstd::prelude::*;

use crate::fixed::Fx;

verus! {

#[verifier::external_type_specification]
#[verifier::external_body]
/// Declaration of the `rand` crate's thread-local generator type.
pub struct ExThreadRng(rand::rngs::ThreadRng);

/// A uniform random source, backed by `rand`'s thread-local generator.
pub struct RandomSource {
    rng: rand::rngs::ThreadRng,
}

impl RandomSource {
    /// Relies on rand::thread_rng: a handle to the thread-local generator.
    #[verifier::external_body]
    pub fn new() -> (r: RandomSource) {
        RandomSource { rng: rand::thread_rng() }
    }

    /// Relies on rand::Rng::gen_range over `lo.raw..hi.raw`: a draw from a
    /// nonempty half-open integer range lies in that range (and panics only
    /// on an empty range, which the precondition rules out).
    #[verifier::external_body]
    pub fn gen_fx_range(&mut self, lo: Fx, hi: Fx) -> (r: Fx)
        requires
            lo.raw < hi.raw,
        ensures
            lo.raw <= r.raw < hi.raw,
    {
        Fx { raw: self.rng.gen_range(lo.raw..hi.raw) }
    }

    /// Relies on rand::Rng::gen_range over `0..n`: a draw from a nonempty
    /// half-open integer range lies in that range, so the result is a valid
    /// index for a collection of `n` items.
    #[verifier::external_body]
    pub fn gen_index(&mut self, n: usize) -> (r: usize)
        requires
            n > 0,
        ensures
            r < n,
    {
        self.rng.gen_range(0..n)
    }
}

} // verus!
