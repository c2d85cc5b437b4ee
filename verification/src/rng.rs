//! A deterministic pseudo-random source, threaded explicitly through every
//! sampling call.
//!
//! The generator is a 64-bit xorshift whose step is stated exactly, so any
//! computation that draws from it is a pure function of the seed.  A zero
//! state would be a fixed point of xorshift, so seeding and stepping both
//! divert zero to a fixed non-zero constant.

use vstd::prelude::*;

verus! {

/// The state substituted for zero when seeding or stepping.
pub const RNG_FALLBACK: u64 = 0x9E37_79B9_7F4A_7C15;

/// One xorshift step; a zero result is diverted to [`RNG_FALLBACK`].
pub open spec fn spec_rng_next(s: u64) -> u64 {
    let a = s ^ (s << 13);
    let b = a ^ (a >> 7);
    let c = b ^ (b << 17);
    if c == 0 {
        RNG_FALLBACK
    } else {
        c
    }
}

/// The state a seed starts from: the seed itself, or [`RNG_FALLBACK`] for
/// zero.
pub open spec fn spec_rng_seed(seed: u64) -> u64 {
    if seed == 0 {
        RNG_FALLBACK
    } else {
        seed
    }
}

/// The fixed-point number in `[0, 1)` drawn by one step from state `s`.
pub open spec fn spec_rng_unit(s: u64) -> i64 {
    (spec_rng_next(s) % 65536) as i64
}

/// An explicit pseudo-random source.
#[derive(Clone, Copy, Debug, PartialEq, Eq, Structural)]
pub struct Rng {
    pub state: u64,
}

impl Rng {
    pub fn new(seed: u64) -> (r: Rng)
        ensures
            r.state == spec_rng_seed(seed),
    {
        if seed == 0 {
            Rng { state: RNG_FALLBACK }
        } else {
            Rng { state: seed }
        }
    }

    /// Advance the state by one step and return it.
    pub fn next_state(&mut self) -> (r: u64)
        ensures
            final(self).state == spec_rng_next(old(self).state),
            r == final(self).state,
    {
        let s: u64 = self.state;
        let a: u64 = s ^ (s << 13);
        let b: u64 = a ^ (a >> 7);
        let c: u64 = b ^ (b << 17);
        let n: u64 = if c == 0 {
            RNG_FALLBACK
        } else {
            c
        };
        self.state = n;
        n
    }

    /// Draw a fixed-point number in `[0, 1)`: an integer in `[0, FX_ONE)`.
    pub fn next_unit(&mut self) -> (r: i64)
        ensures
            final(self).state == spec_rng_next(old(self).state),
            r == spec_rng_unit(old(self).state),
            0 <= r < 65536,
    {
        let n: u64 = self.next_state();
        (n % 65536) as i64
    }
}

} // verus!
