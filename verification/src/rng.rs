use vstd::prelude::*;

verus! {

/// The next state of the injected pseudo-random source: a linear
/// congruential step on 64 bits.
pub open spec fn rng_next(s: u64) -> u64 {
    vstd::wrapping::u64_specs::wrapping_add(
        vstd::wrapping::u64_specs::wrapping_mul(s, 6364136223846793005),
        1442695040888963407,
    )
}

/// The boolean drawn when stepping from state `s`.
pub open spec fn coin_of(s: u64) -> bool {
    rng_next(s) >= 0x8000_0000_0000_0000
}

/// The value in `0..100` drawn when stepping from state `s`.
pub open spec fn cent_of(s: u64) -> u8 {
    ((rng_next(s) / 0x1_0000_0000) % 100) as u8
}

/// The deterministic pseudo-random source the simulation draws tie-breaks
/// and per-cell cosmetic values from. Injecting it keeps a whole run a pure
/// function of the initial grid and the seed.
#[derive(Clone, Copy, Debug, PartialEq, Eq, Structural)]
pub struct SimRng {
    pub state: u64,
}

impl SimRng {
    /// A source that will produce the draw sequence of `seed`.
    pub fn new(seed: u64) -> (r: SimRng)
        ensures
            r.state == seed,
    {
        SimRng { state: seed }
    }

    /// Draws one fair-coin tie-break.
    pub fn coin(&mut self) -> (b: bool)
        ensures
            final(self).state == rng_next(old(self).state),
            b == coin_of(old(self).state),
    {
        self.state = self.state.wrapping_mul(6364136223846793005).wrapping_add(1442695040888963407);
        self.state >= 0x8000_0000_0000_0000
    }

    /// Draws one value in `0..100`.
    pub fn cent(&mut self) -> (r: u8)
        ensures
            final(self).state == rng_next(old(self).state),
            r == cent_of(old(self).state),
            r < 100,
    {
        self.state = self.state.wrapping_mul(6364136223846793005).wrapping_add(1442695040888963407);
        ((self.state / 0x1_0000_0000) % 100) as u8
    }
}

} // verus!
