//! The standalone's demo signals: their menu, and the integer state of the
//! noise source. The oscillators themselves are floating point and run with
//! the signal path.
//!
//! The noise is Marsaglia's xorshift32: cheap, deterministic, and good
//! enough for a test tone. Its one way to fail is a zero state, which it
//! never leaves; the seed is forced odd so it never starts there, and
//! [`Xorshift32::next`] proves it never arrives there either.

use vstd::prelude::*;

verus! {

/// Names of the sources, in parameter order.
pub const SOURCE_NAMES: [&'static str; 5] = ["Sine", "Two Tone", "Sweep", "Saw", "Noise"];

/// One xorshift32 step: shift-and-xor by 13 left, 17 right, 5 left.
pub open spec fn xorshift32_step(x: u32) -> u32 {
    let a = x ^ (x << 13u32);
    let b = a ^ (a >> 17u32);
    b ^ (b << 5u32)
}

/// A xorshift32 step never maps a nonzero state to zero: each of its three
/// shift-and-xor stages is invertible.
pub proof fn lemma_step_keeps_nonzero(x: u32)
    ensures
        x != 0 ==> xorshift32_step(x) != 0,
{
    assert(x != 0 ==> (x ^ (x << 13u32)) != 0) by (bit_vector);
    let a = x ^ (x << 13u32);
    assert(a != 0 ==> (a ^ (a >> 17u32)) != 0) by (bit_vector);
    let b = a ^ (a >> 17u32);
    assert(b != 0 ==> (b ^ (b << 5u32)) != 0) by (bit_vector);
}

/// The noise source's state.
pub struct Xorshift32 {
    state: u32,
}

impl Xorshift32 {
    /// The state, never zero.
    pub closed spec fn state(&self) -> u32 {
        self.state
    }

    /// A generator seeded with `seed`, forced odd so it can never start at
    /// the zero state.
    pub fn new(seed: u32) -> (g: Self)
        ensures
            g.state() == seed | 1u32,
            g.state() != 0,
    {
        assert(seed | 1u32 != 0) by (bit_vector);
        Xorshift32 { state: seed | 1 }
    }

    /// Advance one step and return the new state.
    pub fn next(&mut self) -> (x: u32)
        requires
            old(self).state() != 0,
        ensures
            x == xorshift32_step(old(self).state()),
            final(self).state() == x,
            x != 0,
    {
        proof {
            lemma_step_keeps_nonzero(self.state);
        }
        let mut r = self.state;
        r = r ^ (r << 13u32);
        r = r ^ (r >> 17u32);
        r = r ^ (r << 5u32);
        self.state = r;
        r
    }
}

} // verus!
