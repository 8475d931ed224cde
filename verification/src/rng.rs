//! A deterministic, seedable pseudo-random number generator.
//!
//! The simulation draws all its randomness through this one generator so
//! that a run is reproducible from its seed; a fresh seed can be taken
//! from the operating system's entropy.

use vstd::prelude::*;

use vstd::wrapping::u64_specs;

verus! {

/// The state transition of one generator step.
pub open spec fn rng_next_state(s: u64) -> u64 {
    u64_specs::wrapping_add(s, 0x9E3779B97F4A7C15)
}

/// The value one generator step yields from state `s`.
pub open spec fn rng_output(s: u64) -> u64 {
    let z0 = rng_next_state(s);
    let z1 = u64_specs::wrapping_mul(z0 ^ (z0 >> 30), 0xBF58476D1CE4E5B9);
    let z2 = u64_specs::wrapping_mul(z1 ^ (z1 >> 27), 0x94D049BB133111EB);
    z2 ^ (z2 >> 31)
}

/// The generator state after `k` steps from state `s`.
pub open spec fn rng_state_after(s: u64, k: int) -> u64
    decreases k,
{
    if k <= 0 {
        s
    } else {
        rng_next_state(rng_state_after(s, k - 1))
    }
}

/// The value the `k`-th step (counting from zero) yields, starting from
/// state `s`.
pub open spec fn rng_out_at(s: u64, k: int) -> u64 {
    rng_output(rng_state_after(s, k))
}

/// Stepping `a` times and then `b` times is stepping `a + b` times.
pub proof fn lemma_rng_state_after_add(s: u64, a: int, b: int)
    requires
        a >= 0,
        b >= 0,
    ensures
        rng_state_after(rng_state_after(s, a), b) == rng_state_after(s, a + b),
    decreases b,
{
    if b > 0 {
        lemma_rng_state_after_add(s, a, b - 1);
    }
}

/// Relies on `rand::random::<u64>`: a value from the thread-local
/// generator. Nothing can be promised of the value.
#[verifier::external_body]
fn entropy_u64() -> u64 {
    rand::random::<u64>()
}

/// A 64-bit mixing generator: each step adds a fixed odd constant to the
/// state and scrambles it with xor-shifts and multiplications.
pub struct GameRng {
    pub state: u64,
}

impl GameRng {
    /// A generator starting from the given seed; the same seed replays
    /// the same simulation.
    pub fn from_seed(seed: u64) -> (r: GameRng)
        ensures
            r.state == seed,
    {
        GameRng { state: seed }
    }

    /// A generator seeded from the operating system's entropy; nothing is
    /// known of the seed.
    pub fn from_entropy() -> GameRng {
        GameRng { state: entropy_u64() }
    }

    /// One step: advances the state and returns the scrambled value.
    pub fn next_u64(&mut self) -> (r: u64)
        ensures
            final(self).state == rng_next_state(old(self).state),
            r == rng_output(old(self).state),
    {
        self.state = self.state.wrapping_add(0x9E3779B97F4A7C15);
        let z0 = self.state;
        let z1 = (z0 ^ (z0 >> 30)).wrapping_mul(0xBF58476D1CE4E5B9);
        let z2 = (z1 ^ (z1 >> 27)).wrapping_mul(0x94D049BB133111EB);
        z2 ^ (z2 >> 31)
    }

    /// A value in `[lo, hi]` (both ends included), by modulo reduction
    /// of one step's output.
    pub fn next_in_range(&mut self, lo: u64, hi: u64) -> (r: u64)
        requires
            lo <= hi,
            hi - lo < u64::MAX,
        ensures
            lo <= r <= hi,
            r == lo + (rng_output(old(self).state) as int) % ((hi - lo + 1) as int),
            final(self).state == rng_next_state(old(self).state),
    {
        let span = hi - lo + 1;
        let v = self.next_u64() % span;
        lo + v
    }
}

} // verus!
