//! A small seedable pseudo-random generator (an xorshift step), injected
//! into the world so that spawn positions and stochastic attacks are
//! reproducible under test.

use vstd::prelude::*;

verus! {

/// One xorshift step of the generator state.
pub open spec fn rng_step(s: u64) -> u64 {
    let a = s ^ (s << 13);
    let b = a ^ (a >> 7);
    b ^ (b << 17)
}

/// The value drawn from state `s` when a value below `n` is requested:
/// the stepped state reduced modulo `n`.
pub open spec fn rng_draw(s: u64, n: u64) -> u64
    recommends
        n > 0,
{
    rng_step(s) % n
}

/// A seedable pseudo-random source. A zero seed is left as is: the
/// generator then yields zero forever, which is still a valid (if dull)
/// deterministic stream, so callers that want variety should seed
/// non-zero.
pub struct Rng {
    pub state: u64,
}

impl Rng {
    pub fn new(seed: u64) -> (r: Rng)
        ensures
            r.state == seed,
    {
        Rng { state: seed }
    }

    /// Advances the state by one xorshift step and returns a value in
    /// `[0, n)`.
    pub fn next_below(&mut self, n: u64) -> (r: u64)
        requires
            n > 0,
        ensures
            final(self).state == rng_step(old(self).state),
            r == rng_draw(old(self).state, n),
            r < n,
    {
        let mut x = self.state;
        x = x ^ (x << 13);
        x = x ^ (x >> 7);
        x = x ^ (x << 17);
        self.state = x;
        x % n
    }
}

} // verus!
