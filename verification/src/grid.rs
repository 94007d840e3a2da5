//! The board's geometry and movement on it. The board is a torus: leaving
//! through one edge enters through the opposite one.

use vstd::prelude::*;
use crate::components::GridPosition;

verus! {

/// Number of columns and of rows of the default board.
pub const GRID_SIZE: u32 = 30;

/// Edge length of one cell of the default board, in display units.
pub const GRID_PIXELS: u32 = 24;

/// A heading of the snake.
#[derive(Clone, Copy, Debug, PartialEq, Eq, Structural)]
pub enum Direction {
    Up,
    Down,
    Left,
    Right,
}

impl Direction {
    /// The heading that points the other way.
    pub open spec fn spec_opposite(self) -> Direction {
        match self {
            Direction::Up => Direction::Down,
            Direction::Down => Direction::Up,
            Direction::Left => Direction::Right,
            Direction::Right => Direction::Left,
        }
    }

    /// Whether the heading runs along a row.
    pub open spec fn is_horizontal(self) -> bool {
        self == Direction::Left || self == Direction::Right
    }

    /// The heading that points the other way.
    pub fn opposite(self) -> (other: Direction)
        ensures
            other == self.spec_opposite(),
    {
        match self {
            Direction::Up => Direction::Down,
            Direction::Down => Direction::Up,
            Direction::Left => Direction::Right,
            Direction::Right => Direction::Left,
        }
    }
}

/// The board's dimensions in cells, and the size of a cell in display units.
#[derive(Clone, Copy, Debug, PartialEq, Eq, Structural)]
pub struct GridSize {
    pub width: u32,
    pub height: u32,
    pub pixels: u32,
}

impl GridSize {
    /// A board has at least one column and one row.
    pub open spec fn wf(self) -> bool {
        self.width >= 1 && self.height >= 1
    }

    /// Whether `position` is a cell of this board.
    pub open spec fn spec_contains(self, position: GridPosition) -> bool {
        position.x < self.width && position.y < self.height
    }

    /// The cell next to `position` in `direction`, across the edge if
    /// `position` lies on it.
    pub open spec fn spec_advance(self, position: GridPosition, direction: Direction) -> GridPosition {
        match direction {
            Direction::Up => GridPosition {
                x: position.x,
                y: if position.y + 1 < self.height { (position.y + 1) as u32 } else { 0 },
            },
            Direction::Down => GridPosition {
                x: position.x,
                y: if position.y > 0 { (position.y - 1) as u32 } else { (self.height - 1) as u32 },
            },
            Direction::Left => GridPosition {
                x: if position.x > 0 { (position.x - 1) as u32 } else { (self.width - 1) as u32 },
                y: position.y,
            },
            Direction::Right => GridPosition {
                x: if position.x + 1 < self.width { (position.x + 1) as u32 } else { 0 },
                y: position.y,
            },
        }
    }

    /// The cell reached from `position` by `steps` moves in `direction`.
    pub open spec fn spec_advance_by(self, position: GridPosition, direction: Direction, steps: nat) -> GridPosition
        decreases steps,
    {
        if steps == 0 {
            position
        } else {
            self.spec_advance_by(self.spec_advance(position, direction), direction, (steps - 1) as nat)
        }
    }

    /// The number of cells in a line of the board that runs in `direction`.
    pub open spec fn extent(self, direction: Direction) -> nat {
        if direction.is_horizontal() {
            self.width as nat
        } else {
            self.height as nat
        }
    }

    /// The number of cells of the board.
    pub open spec fn spec_cell_count(self) -> nat {
        (self.width as nat) * (self.height as nat)
    }

    /// The default board: 30 by 30 cells of 24 display units.
    pub fn default() -> (grid: GridSize)
        ensures
            grid == (GridSize { width: GRID_SIZE, height: GRID_SIZE, pixels: GRID_PIXELS }),
            grid.wf(),
    {
        GridSize { width: GRID_SIZE, height: GRID_SIZE, pixels: GRID_PIXELS }
    }

    /// A board of the given dimensions, or `None` if it would have no cell.
    pub fn new(width: u32, height: u32, pixels: u32) -> (grid: Option<GridSize>)
        ensures
            grid == if width >= 1 && height >= 1 {
                Some(GridSize { width, height, pixels })
            } else {
                None
            },
    {
        if width >= 1 && height >= 1 {
            Some(GridSize { width, height, pixels })
        } else {
            None
        }
    }

    /// Whether the board has at least one column and one row.
    pub fn is_valid(&self) -> (valid: bool)
        ensures
            valid == self.wf(),
    {
        self.width >= 1 && self.height >= 1
    }

    /// Whether `position` is a cell of this board.
    pub fn contains(&self, position: GridPosition) -> (inside: bool)
        ensures
            inside == self.spec_contains(position),
    {
        position.x < self.width && position.y < self.height
    }

    /// The number of cells of the board.
    pub fn cell_count(&self) -> (count: u64)
        ensures
            count == self.spec_cell_count(),
    {
        assert((self.width as nat) * (self.height as nat) <= 0xffff_ffff * 0xffff_ffff) by (nonlinear_arith)
            requires
                self.width <= 0xffff_ffff,
                self.height <= 0xffff_ffff,
        ;
        (self.width as u64) * (self.height as u64)
    }

    /// Moves one cell in `direction`, wrapping to the opposite edge where the
    /// move would leave the board.
    pub fn advance(&self, position: GridPosition, direction: Direction) -> (next: GridPosition)
        requires
            self.wf(),
        ensures
            next == self.spec_advance(position, direction),
            self.spec_contains(position) ==> self.spec_contains(next),
    {
        match direction {
            Direction::Up => GridPosition {
                x: position.x,
                y: if position.y < self.height - 1 { position.y + 1 } else { 0 },
            },
            Direction::Down => GridPosition {
                x: position.x,
                y: if position.y > 0 { position.y - 1 } else { self.height - 1 },
            },
            Direction::Left => GridPosition {
                x: if position.x > 0 { position.x - 1 } else { self.width - 1 },
                y: position.y,
            },
            Direction::Right => GridPosition {
                x: if position.x < self.width - 1 { position.x + 1 } else { 0 },
                y: position.y,
            },
        }
    }
}

} // verus!
