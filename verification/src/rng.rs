//! Deterministic pseudo-random number source for the draw engine.
//!
//! Every draw the engine makes is a pure function of the seed, so two runs
//! with the same seed see the same stream of values.  The generator is a
//! splitmix-style counter generator: the state advances by a fixed odd
//! constant and the output is a bit-mixing function of the new state.

use vstd::prelude::*;

verus! {

/// Additive constant by which the state advances on every draw.
pub const GOLDEN_GAMMA: u64 = 0x9E3779B97F4A7C15;

/// First multiplier of the output mixing function.
pub const MIX_MULT_A: u64 = 0xBF58476D1CE4E5B9;

/// Second multiplier of the output mixing function.
pub const MIX_MULT_B: u64 = 0x94D049BB133111EB;

/// The state that follows `s`.
pub open spec fn next_state(s: u64) -> u64 {
    s.wrapping_add(GOLDEN_GAMMA)
}

/// The value handed out for a state `s`.
pub open spec fn mix64(s: u64) -> u64 {
    let a = (s ^ (s >> 30u64)).wrapping_mul(MIX_MULT_A);
    let b = (a ^ (a >> 27u64)).wrapping_mul(MIX_MULT_B);
    b ^ (b >> 31u64)
}

/// The value drawn from state `s` when asked for a number below `n`,
/// together with the state after the draw.
pub open spec fn spec_draw(s: u64, n: u64) -> (u64, u64)
    recommends
        n > 0,
{
    (mix64(next_state(s)) % n, next_state(s))
}

/// A deterministic generator, seeded by the caller and owned by one
/// simulation run.
pub struct SeededRng {
    pub state: u64,
}

impl View for SeededRng {
    type V = u64;

    open spec fn view(&self) -> u64 {
        self.state
    }
}

impl SeededRng {
    /// Start a generator from a caller-chosen seed.
    pub fn new(seed: u64) -> (r: SeededRng)
        ensures
            r@ == seed,
    {
        SeededRng { state: seed }
    }

    /// Advance the state and hand out the mixed value of the new state.
    pub fn next_u64(&mut self) -> (r: u64)
        ensures
            final(self)@ == next_state(old(self)@),
            r == mix64(final(self)@),
    {
        self.state = self.state.wrapping_add(GOLDEN_GAMMA);
        let s = self.state;
        let a = (s ^ (s >> 30u64)).wrapping_mul(MIX_MULT_A);
        let b = (a ^ (a >> 27u64)).wrapping_mul(MIX_MULT_B);
        b ^ (b >> 31u64)
    }

    /// Draw a value uniformly below `n`.
    pub fn gen_range(&mut self, n: u64) -> (r: u64)
        requires
            n > 0,
        ensures
            (r, final(self)@) == spec_draw(old(self)@, n),
            r < n,
    {
        let v = self.next_u64();
        v % n
    }
}

} // verus!
