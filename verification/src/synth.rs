//! The audio thread's tiny allocation-free random source: xorshift32.
//! (The sound itself is synthesized in floating point by the caller.)

use vstd::prelude::*;

verus! {

/// One xorshift32 step: `x ^= x << 13; x ^= x >> 17; x ^= x << 5`.
pub open spec fn xorshift32(x: u32) -> u32 {
    let a = x ^ (x << 13u32);
    let b = a ^ (a >> 17u32);
    b ^ (b << 5u32)
}

/// xorshift32 never maps a nonzero state to zero, so a generator seeded
/// with a nonzero state never gets stuck.
pub proof fn xorshift32_keeps_nonzero(x: u32)
    ensures
        x != 0 ==> xorshift32(x) != 0,
{
    assert(x != 0 ==> ((x ^ (x << 13u32)) ^ ((x ^ (x << 13u32)) >> 17u32)) ^ (((x ^ (x << 13u32)) ^ (
    (x ^ (x << 13u32)) >> 17u32)) << 5u32) != 0) by (bit_vector);
}

/// Cheap, allocation-free PRNG for the audio thread.
pub struct Rng(u32);

impl Rng {
    #[verifier::type_invariant]
    closed spec fn nonzero(self) -> bool {
        self.0 != 0
    }

    /// The current state.
    pub closed spec fn state(self) -> u32 {
        self.0
    }

    /// A generator seeded with `seed`, forced odd so that it is never zero.
    pub fn new(seed: u32) -> (r: Rng)
        ensures
            r.state() == seed | 1,
            r.state() != 0,
    {
        assert((seed | 1u32) != 0u32) by (bit_vector);
        Rng(seed | 1)
    }

    /// Advances the generator one step and returns the new state, which is
    /// never zero.
    pub fn next_u32(&mut self) -> (x: u32)
        ensures
            x == xorshift32(old(self).state()),
            final(self).state() == x,
            x != 0,
    {
        proof {
            use_type_invariant(&*self);
            xorshift32_keeps_nonzero(self.0);
        }
        let mut x = self.0;
        x ^= x << 13;
        x ^= x >> 17;
        x ^= x << 5;
        self.0 = x;
        x
    }
}

} // verus!
