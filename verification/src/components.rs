//! The records that occupy cells of the board.

use vstd::prelude::*;

verus! {

/// A cell of the board: column `x` and row `y`, both counted from zero.
#[derive(Clone, Copy, Debug, PartialEq, Eq, Structural)]
pub struct GridPosition {
    pub x: u32,
    pub y: u32,
}

/// One segment of the snake. Index 0 is the head; indices grow towards the
/// tail.
#[derive(Clone, Copy, Debug, PartialEq, Eq, Structural)]
pub struct SnakeSegment {
    pub index: u32,
    pub position: GridPosition,
}

/// The food item. At most one exists at any time.
#[derive(Clone, Copy, Debug, PartialEq, Eq, Structural)]
pub struct Food {
    pub position: GridPosition,
}

} // verus!
