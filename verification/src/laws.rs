use vstd::prelude::*;
use crate::model::{Model, spec_tick};

verus! {

/// The grid after `n` ticks.
pub open spec fn spec_ticks(m: Model, n: nat) -> Model
    decreases n,
{
    if n == 0 {
        m
    } else {
        spec_ticks(spec_tick(m), (n - 1) as nat)
    }
}

/// Determinism: `Grid::tick` pins the new grid to `spec_tick` of the old
/// one, and the injected random source is part of the grid, so a run is a
/// pure function of the initial state — two grids that start identical
/// (same cells, dimensions, counter and draw sequence) are identical after
/// any number of ticks.
pub proof fn lemma_ticks_deterministic(a: Model, b: Model, n: nat)
    requires
        a == b,
    ensures
        spec_ticks(a, n) == spec_ticks(b, n),
{
}

} // verus!
