//! Tiny xorshift generator: just enough randomness to pick serve
//! directions and angles without adding a dependency.
use vstd::prelude::*;

verus! {

/// Mixed into every seed so that small seeds still give lively streams.
pub const SEED_MIX: u64 = 0x9E37_79B9_7F4A_7C15;

/// One xorshift64 step (shifts 13, 7, 17).
pub open spec fn xorshift_step(x: u64) -> u64 {
    let a = x ^ (x << 13u64);
    let b = a ^ (a >> 7u64);
    b ^ (b << 17u64)
}

/// The state a seed starts from: the low bit is forced to one, so the
/// state is never zero (a zero state would never change).
pub open spec fn seeded_state(seed: u64) -> u64 {
    (seed ^ SEED_MIX) | 1u64
}

/// Whether a drawn value counts as a coin flip's "true": its low bit.
pub open spec fn coin_of(x: u64) -> bool {
    x & 1u64 == 1u64
}

/// A xorshift64 generator. Its state is never zero.
#[derive(Debug)]
pub struct Xorshift {
    state: u64,
}

impl View for Xorshift {
    type V = u64;

    closed spec fn view(&self) -> u64 {
        self.state
    }
}

/// A non-zero state stays non-zero under a step: the generator never
/// falls into the all-zero fixed point.
pub proof fn lemma_step_keeps_state_nonzero(x: u64)
    requires
        x != 0,
    ensures
        xorshift_step(x) != 0,
{
    let a = x ^ (x << 13u64);
    let b = a ^ (a >> 7u64);
    assert(x != 0 ==> x ^ (x << 13u64) != 0) by (bit_vector);
    assert(a != 0 ==> a ^ (a >> 7u64) != 0) by (bit_vector);
    assert(b != 0 ==> b ^ (b << 17u64) != 0) by (bit_vector);
}

/// Every seed gives a non-zero starting state.
pub proof fn lemma_seeded_state_nonzero(seed: u64)
    ensures
        seeded_state(seed) != 0,
{
    assert(((seed ^ 0x9E37_79B9_7F4A_7C15u64) | 1u64) != 0) by (bit_vector);
}

impl Xorshift {
    /// The generator's state is never zero.
    pub closed spec fn wf(&self) -> bool {
        self.state != 0
    }

    /// A generator seeded with `seed`.
    pub fn new(seed: u64) -> (rng: Self)
        ensures
            rng@ == seeded_state(seed),
            rng.wf(),
    {
        proof {
            lemma_seeded_state_nonzero(seed);
        }
        Xorshift { state: (seed ^ SEED_MIX) | 1 }
    }

    /// Advances the generator and returns the new state.
    pub fn next_u64(&mut self) -> (x: u64)
        requires
            old(self).wf(),
        ensures
            x == xorshift_step(old(self)@),
            final(self)@ == x,
            final(self).wf(),
    {
        proof {
            lemma_step_keeps_state_nonzero(self.state);
        }
        let mut x = self.state;
        x = x ^ (x << 13);
        x = x ^ (x >> 7);
        x = x ^ (x << 17);
        self.state = x;
        x
    }

    /// Advances the generator and returns the low bit of the new state.
    pub fn next_bool(&mut self) -> (b: bool)
        requires
            old(self).wf(),
        ensures
            final(self)@ == xorshift_step(old(self)@),
            b == coin_of(final(self)@),
            final(self).wf(),
    {
        self.next_u64() & 1 == 1
    }
}

} // verus!
