//! Laws of motion on the torus: laps of a cell, and of a snake that runs
//! straight.

use vstd::prelude::*;
use vstd::arithmetic::div_mod::{
    lemma_add_mod_noop, lemma_mod_add_multiples_vanish, lemma_mod_multiples_vanish, lemma_mod_self_0,
    lemma_mod_twice, lemma_small_mod,
};
use crate::components::GridPosition;
use crate::grid::{Direction, GridSize};
use crate::laws::lemma_step_back;
use crate::state::{GameStatus, SimState};

verus! {

/// The coordinate of `cell` that a move in `direction` changes.
spec fn along(cell: GridPosition, direction: Direction) -> int {
    if direction.is_horizontal() {
        cell.x as int
    } else {
        cell.y as int
    }
}

/// The coordinate of `cell` that a move in `direction` keeps.
spec fn across(cell: GridPosition, direction: Direction) -> int {
    if direction.is_horizontal() {
        cell.y as int
    } else {
        cell.x as int
    }
}

/// By how much `steps` moves in `direction` change the coordinate, before
/// wrapping.
spec fn displacement(direction: Direction, steps: nat) -> int {
    match direction {
        Direction::Up | Direction::Right => steps as int,
        Direction::Down | Direction::Left => -(steps as int),
    }
}

proof fn lemma_cell_by_coordinates(a: GridPosition, b: GridPosition, direction: Direction)
    requires
        along(a, direction) == along(b, direction),
        across(a, direction) == across(b, direction),
    ensures
        a == b,
{
}

proof fn lemma_mod_add_left(x: int, y: int, m: int)
    requires
        0 < m,
    ensures
        ((x % m) + y) % m == (x + y) % m,
{
    lemma_add_mod_noop(x, y, m);
    lemma_add_mod_noop(x % m, y, m);
    lemma_mod_twice(x, m);
}

/// One move changes the coordinate along the heading by one, modulo the
/// board's extent, and keeps the other.
proof fn lemma_advance_coordinates(grid: GridSize, cell: GridPosition, direction: Direction)
    requires
        grid.wf(),
        grid.spec_contains(cell),
    ensures
        grid.spec_contains(grid.spec_advance(cell, direction)),
        along(grid.spec_advance(cell, direction), direction) == (along(cell, direction) + displacement(
            direction,
            1,
        )) % (grid.extent(direction) as int),
        across(grid.spec_advance(cell, direction), direction) == across(cell, direction),
{
    let a = along(cell, direction);
    let e = grid.extent(direction) as int;
    match direction {
        Direction::Up | Direction::Right => {
            if a + 1 < e {
                lemma_small_mod((a + 1) as nat, e as nat);
            } else {
                lemma_mod_self_0(e);
            }
        },
        Direction::Down | Direction::Left => {
            if a > 0 {
                lemma_small_mod((a - 1) as nat, e as nat);
            } else {
                lemma_mod_add_multiples_vanish(-1, e);
                lemma_small_mod((e - 1) as nat, e as nat);
            }
        },
    }
}

/// `steps` moves change the coordinate along the heading by `steps`, modulo
/// the board's extent, and keep the other.
proof fn lemma_advance_by_coordinates(grid: GridSize, cell: GridPosition, direction: Direction, steps: nat)
    requires
        grid.wf(),
        grid.spec_contains(cell),
    ensures
        grid.spec_contains(grid.spec_advance_by(cell, direction, steps)),
        along(grid.spec_advance_by(cell, direction, steps), direction) == (along(cell, direction)
            + displacement(direction, steps)) % (grid.extent(direction) as int),
        across(grid.spec_advance_by(cell, direction, steps), direction) == across(cell, direction),
    decreases steps,
{
    let a = along(cell, direction);
    let e = grid.extent(direction) as int;
    if steps == 0 {
        lemma_small_mod(a as nat, e as nat);
    } else {
        let next = grid.spec_advance(cell, direction);
        lemma_advance_coordinates(grid, cell, direction);
        lemma_advance_by_coordinates(grid, next, direction, (steps - 1) as nat);
        lemma_mod_add_left(a + displacement(direction, 1), displacement(direction, (steps - 1) as nat), e);
    }
}

/// Moves in a fixed direction stay on the board.
pub proof fn lemma_advance_by_stays_on_board(grid: GridSize, cell: GridPosition, direction: Direction, steps: nat)
    requires
        grid.wf(),
        grid.spec_contains(cell),
    ensures
        grid.spec_contains(grid.spec_advance_by(cell, direction, steps)),
{
    lemma_advance_by_coordinates(grid, cell, direction, steps);
}

/// A lap. As many moves in a fixed direction as the board has cells in that
/// direction lead back to the start, and so do as many moves as the board
/// has cells in all; fewer moves than a lap, but at least one, lead
/// elsewhere.
pub proof fn lemma_lap_returns_home(grid: GridSize, cell: GridPosition, direction: Direction)
    requires
        grid.wf(),
        grid.spec_contains(cell),
    ensures
        grid.spec_advance_by(cell, direction, grid.extent(direction)) == cell,
        grid.spec_advance_by(cell, direction, grid.spec_cell_count()) == cell,
        forall|steps: nat|
            0 < steps < grid.extent(direction) ==> #[trigger] grid.spec_advance_by(cell, direction, steps)
                != cell,
{
    let a = along(cell, direction);
    let e = grid.extent(direction) as int;
    let other: int = if direction.is_horizontal() {
        grid.height as int
    } else {
        grid.width as int
    };
    let count = grid.spec_cell_count();
    assert(count as int == e * other) by (nonlinear_arith)
        requires
            count == (grid.width as nat) * (grid.height as nat),
            (e == grid.width && other == grid.height) || (e == grid.height && other == grid.width),
    ;
    lemma_small_mod(a as nat, e as nat);

    lemma_advance_by_coordinates(grid, cell, direction, e as nat);
    lemma_advance_by_coordinates(grid, cell, direction, count);
    match direction {
        Direction::Up | Direction::Right => {
            lemma_mod_multiples_vanish(1, a, e);
            lemma_mod_multiples_vanish(other, a, e);
        },
        Direction::Down | Direction::Left => {
            lemma_mod_multiples_vanish(-1, a, e);
            lemma_mod_multiples_vanish(-other, a, e);
            assert(e * (-other) == -(e * other)) by (nonlinear_arith);
        },
    }
    lemma_cell_by_coordinates(grid.spec_advance_by(cell, direction, e as nat), cell, direction);
    lemma_cell_by_coordinates(grid.spec_advance_by(cell, direction, count), cell, direction);

    assert forall|steps: nat| 0 < steps < grid.extent(direction) implies #[trigger] grid.spec_advance_by(
        cell,
        direction,
        steps,
    ) != cell by {
        lemma_advance_by_coordinates(grid, cell, direction, steps);
        let moved = a + displacement(direction, steps);
        if 0 <= moved < e {
            lemma_small_mod(moved as nat, e as nat);
        } else if moved >= e {
            lemma_mod_multiples_vanish(-1, moved, e);
            lemma_small_mod((moved - e) as nat, e as nat);
        } else {
            lemma_mod_multiples_vanish(1, moved, e);
            lemma_small_mod((moved + e) as nat, e as nat);
        }
    }
}

/// A fresh snake lies straight behind its head.
pub proof fn lemma_fresh_snake_is_straight(pre: SimState)
    requires
        pre.start.for_snake,
        pre.snake_state.direction == Direction::Right,
    ensures
        pre.snake_initialized().is_straight(),
{
    let post = pre.snake_initialized();
    let head = post.entities.snake[0];
    reveal_with_fuel(GridSize::spec_advance_by, 3);
    assert(post.entities.snake[1] == pre.grid.spec_advance_by(head, Direction::Left, 1));
    assert(post.entities.snake[2] == pre.grid.spec_advance_by(head, Direction::Left, 2));
}

/// One tick of a straight snake that is no longer than the board along its
/// heading and has no growth queued: the snake stays straight, keeps its
/// length, and the game goes on.
proof fn lemma_straight_step(pre: SimState)
    requires
        pre.wf(),
        pre.can_step(),
        pre.growth.pending == 0,
        pre.is_straight(),
        pre.entities.snake.len() <= pre.grid.extent(pre.snake_state.direction),
    ensures
        pre.after_step().wf(),
        pre.after_step().can_step(),
        pre.after_step().is_straight(),
        pre.after_step().entities.snake.len() == pre.entities.snake.len(),
        pre.after_step().entities.snake[0] == pre.next_head(),
        pre.after_step().entities.food == pre.entities.food,
        pre.after_step().growth == pre.growth,
        pre.after_step().snake_state == pre.snake_state,
        pre.after_step().start == pre.start,
        pre.after_step().grid == pre.grid,
{
    let grid = pre.grid;
    let heading = pre.snake_state.direction;
    let back = heading.spec_opposite();
    let head = pre.entities.snake[0];
    let post = pre.after_step();
    let next = pre.next_head();
    lemma_step_back(grid, head, heading);
    assert forall|i: int| 0 <= i < post.entities.snake.len() implies #[trigger] post.entities.snake[i]
        == grid.spec_advance_by(next, back, i as nat) by {
        if i > 0 {
            assert(post.entities.snake[i] == pre.entities.snake[i - 1]);
            assert(grid.spec_advance_by(next, back, i as nat) == grid.spec_advance_by(
                grid.spec_advance(next, back),
                back,
                (i - 1) as nat,
            ));
        }
    }
    lemma_lap_returns_home(grid, next, back);
    assert forall|i: int| 1 <= i < post.entities.snake.len() implies #[trigger] post.entities.snake[i]
        != post.entities.snake[0] by {
        assert(0 < (i as nat) < grid.extent(back));
    }
    assert forall|i: int| 0 <= i < post.entities.snake.len() implies grid.spec_contains(
        #[trigger] post.entities.snake[i],
    ) by {
        if i > 0 {
            assert(post.entities.snake[i] == pre.entities.snake[i - 1]);
        }
    }
}

/// A straight run. A straight snake that is no longer than the board along
/// its heading and has no growth queued runs on without collision: after any
/// number of ticks the game still runs, the snake is straight and as long as
/// before, and the head is as many cells along the heading as ticks have
/// passed.
pub proof fn lemma_straight_run(pre: SimState, ticks: nat)
    requires
        pre.wf(),
        pre.can_step(),
        pre.growth.pending == 0,
        pre.is_straight(),
        pre.entities.snake.len() <= pre.grid.extent(pre.snake_state.direction),
    ensures
        pre.after_steps(ticks).wf(),
        pre.after_steps(ticks).status == GameStatus::Running,
        pre.after_steps(ticks).is_straight(),
        pre.after_steps(ticks).entities.snake.len() == pre.entities.snake.len(),
        pre.after_steps(ticks).entities.snake[0] == pre.grid.spec_advance_by(
            pre.entities.snake[0],
            pre.snake_state.direction,
            ticks,
        ),
        pre.after_steps(ticks).entities.food == pre.entities.food,
        pre.after_steps(ticks).growth == pre.growth,
        pre.after_steps(ticks).snake_state == pre.snake_state,
        pre.after_steps(ticks).start == pre.start,
        pre.after_steps(ticks).grid == pre.grid,
    decreases ticks,
{
    if ticks > 0 {
        lemma_straight_step(pre);
        lemma_straight_run(pre.after_step(), (ticks - 1) as nat);
    }
}

/// A lap of the snake. After as many ticks as the board has cells along the
/// heading, and after as many ticks as the board has cells in all, a
/// straight snake that is no longer than the board along its heading and has
/// no growth queued is back where it was, and the game still runs.
pub proof fn lemma_straight_snake_laps(pre: SimState)
    requires
        pre.wf(),
        pre.can_step(),
        pre.growth.pending == 0,
        pre.is_straight(),
        pre.entities.snake.len() <= pre.grid.extent(pre.snake_state.direction),
    ensures
        pre.after_steps(pre.grid.extent(pre.snake_state.direction)) == pre,
        pre.after_steps(pre.grid.spec_cell_count()) == pre,
{
    let lap = pre.grid.extent(pre.snake_state.direction);
    let count = pre.grid.spec_cell_count();
    lemma_lap_returns_home(pre.grid, pre.entities.snake[0], pre.snake_state.direction);
    lemma_straight_run(pre, lap);
    lemma_straight_run(pre, count);
    assert(pre.after_steps(lap).entities.snake =~= pre.entities.snake);
    assert(pre.after_steps(count).entities.snake =~= pre.entities.snake);
}

} // verus!
