//! Seeded random streams, one per worker.
use vstd::prelude::*;
use rand::Rng;
use rand::SeedableRng;

verus! {

#[verifier::external_type_specification]
#[verifier::external_body]
pub struct ExStdRng(rand::rngs::StdRng);

/// Relies on rand's `SeedableRng::seed_from_u64` for `StdRng`: a generator
/// whose stream is fixed by the seed.
#[verifier::external_body]
fn seeded(seed: u64) -> rand::rngs::StdRng {
    rand::rngs::StdRng::seed_from_u64(seed)
}

/// Relies on rand's `Rng::gen_range` over `0..n`: a value below `n` (it
/// panics on an empty range, which `n > 0` rules out).
#[verifier::external_body]
fn draw_below(rng: &mut rand::rngs::StdRng, n: u64) -> (r: u64)
    requires
        n > 0,
    ensures
        r < n,
{
    rng.gen_range(0..n)
}

/// The seed of worker `index` under `master`: distinct workers get distinct
/// seeds.
pub open spec fn worker_seed_spec(master: u64, index: u64) -> u64 {
    (master ^ index) as u64
}

/// A random stream owned by one worker.
pub struct RandomStream {
    rng: rand::rngs::StdRng,
}

impl RandomStream {
    /// A stream fixed by `seed`.
    pub fn new(seed: u64) -> (r: RandomStream) {
        RandomStream { rng: seeded(seed) }
    }

    /// The stream of worker `index` under the master seed.
    pub fn for_worker(master: u64, index: u64) -> (r: RandomStream) {
        RandomStream::new(worker_seed(master, index))
    }

    /// A value in `[0, n)`.
    pub fn below(&mut self, n: u64) -> (r: u64)
        requires
            n > 0,
        ensures
            r < n,
    {
        draw_below(&mut self.rng, n)
    }

    /// A value in `[lo, hi]`.
    pub fn between(&mut self, lo: i64, hi: i64) -> (r: i64)
        requires
            lo <= hi,
            hi - lo < u64::MAX,
        ensures
            lo <= r <= hi,
    {
        let span: u64 = (hi as i128 - lo as i128 + 1) as u64;
        let d: u64 = self.below(span);
        (lo as i128 + d as i128) as i64
    }

    /// True with probability `num / den`.
    pub fn chance(&mut self, num: u64, den: u64) -> (r: bool)
        requires
            den > 0,
        ensures
            num == 0 ==> !r,
            num >= den ==> r,
    {
        self.below(den) < num
    }
}

/// Distinct workers under one master seed get distinct seeds.
pub proof fn lemma_worker_seeds_distinct(master: u64, i: u64, j: u64)
    requires
        i != j,
    ensures
        worker_seed_spec(master, i) != worker_seed_spec(master, j),
{
    assert((master ^ i) != (master ^ j)) by (bit_vector)
        requires i != j;
}

/// The seed of worker `index` under the master seed.
pub fn worker_seed(master: u64, index: u64) -> (r: u64)
    ensures
        r == worker_seed_spec(master, index),
{
    master ^ index
}

} // verus!
