//! The source of random cells, backed by `rand`'s standard generator.

use vstd::prelude::*;
use rand::rngs::StdRng;
use rand::Rng;
use crate::components::GridPosition;
use crate::grid::GridSize;

verus! {

/// `rand::rngs::StdRng`, carried through as an opaque value.
#[verifier::external_type_specification]
#[verifier::external_body]
pub struct ExStdRng(StdRng);

/// The generator from which the food's cells are drawn.
pub struct RandomSource {
    pub rng: StdRng,
}

/// Draws a number below `bound` with `rand::Rng::random_range(0..bound)`.
///
/// Trusted: `random_range` panics on an empty range, which `requires` rules
/// out, and returns a value of the range. Nothing is claimed about which
/// value comes, nor about the generator afterwards.
#[verifier::external_body]
fn random_below(rng: &mut StdRng, bound: u32) -> (value: u32)
    requires
        bound > 0,
    ensures
        value < bound,
{
    rng.random_range(0..bound)
}

impl RandomSource {
    /// Wraps a generator.
    pub fn new(rng: StdRng) -> (source: RandomSource)
        ensures
            source.rng == rng,
    {
        RandomSource { rng }
    }

    /// Draws a cell of the board: first the column, then the row.
    pub fn random_cell(&mut self, grid: &GridSize) -> (cell: GridPosition)
        requires
            grid.wf(),
        ensures
            grid.spec_contains(cell),
    {
        let x: u32 = random_below(&mut self.rng, grid.width);
        let y: u32 = random_below(&mut self.rng, grid.height);
        GridPosition { x, y }
    }
}

} // verus!
