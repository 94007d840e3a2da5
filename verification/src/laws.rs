//! Laws of the engine, proved of its model.

use vstd::prelude::*;
use crate::components::GridPosition;
use crate::entities::Entities;
use crate::grid::{Direction, GridSize};
use crate::state::{GameStatus, SimState, SnakeState, INITIAL_SEGMENTS};

verus! {

/// Wraparound. A step off the board's last column to the right lands on the
/// first column of the same row, and likewise at the three other edges.
pub proof fn lemma_wraparound(grid: GridSize, cell: GridPosition)
    requires
        grid.wf(),
        grid.spec_contains(cell),
    ensures
        cell.x == grid.width - 1 ==> grid.spec_advance(cell, Direction::Right) == (GridPosition { x: 0, y: cell.y }),
        cell.x == 0 ==> grid.spec_advance(cell, Direction::Left) == (GridPosition {
            x: (grid.width - 1) as u32,
            y: cell.y,
        }),
        cell.y == grid.height - 1 ==> grid.spec_advance(cell, Direction::Up) == (GridPosition { x: cell.x, y: 0 }),
        cell.y == 0 ==> grid.spec_advance(cell, Direction::Down) == (GridPosition {
            x: cell.x,
            y: (grid.height - 1) as u32,
        }),
{
}

/// Away from the edge a step changes one coordinate by one.
pub proof fn lemma_step_inside(grid: GridSize, cell: GridPosition)
    requires
        grid.wf(),
        grid.spec_contains(cell),
    ensures
        cell.x < grid.width - 1 ==> grid.spec_advance(cell, Direction::Right) == (GridPosition {
            x: (cell.x + 1) as u32,
            y: cell.y,
        }),
        cell.x > 0 ==> grid.spec_advance(cell, Direction::Left) == (GridPosition {
            x: (cell.x - 1) as u32,
            y: cell.y,
        }),
        cell.y < grid.height - 1 ==> grid.spec_advance(cell, Direction::Up) == (GridPosition {
            x: cell.x,
            y: (cell.y + 1) as u32,
        }),
        cell.y > 0 ==> grid.spec_advance(cell, Direction::Down) == (GridPosition {
            x: cell.x,
            y: (cell.y - 1) as u32,
        }),
{
}

/// A step stays on the board, and a step back the other way undoes it.
pub proof fn lemma_step_back(grid: GridSize, cell: GridPosition, direction: Direction)
    requires
        grid.wf(),
        grid.spec_contains(cell),
    ensures
        grid.spec_contains(grid.spec_advance(cell, direction)),
        grid.spec_advance(grid.spec_advance(cell, direction), direction.spec_opposite()) == cell,
{
}

/// Every operation of the engine keeps the state well formed: the entities
/// stay on the board, whatever cell was drawn for the food.
pub proof fn lemma_operations_keep_wf(
    pre: SimState,
    intent: Option<Direction>,
    delta_nanos: u64,
    drawn: Option<GridPosition>,
)
    requires
        pre.wf(),
    ensures
        pre.start_emitted().wf(),
        pre.snake_initialized().wf(),
        pre.after_input(intent).wf(),
        pre.after_step().wf(),
        pre.after_move(delta_nanos).wf(),
        pre.after_food_init(drawn).wf(),
        pre.after_food_collision(drawn).wf(),
        pre.restarted().wf(),
{
    let head = GridPosition { x: pre.grid.width / 2, y: pre.grid.height / 2 };
    lemma_step_back(pre.grid, head, Direction::Left);
    lemma_step_back(pre.grid, pre.grid.spec_advance(head, Direction::Left), Direction::Left);
    lemma_step_keeps_wf(pre);
    if pre.can_step() {
        let ticked = pre.snake_state.timer.spec_ticked(delta_nanos);
        let gated = SimState {
            snake_state: SnakeState {
                timer: if pre.snake_state.force_step { ticked.spec_reset() } else { ticked },
                force_step: false,
                ..pre.snake_state
            },
            ..pre
        };
        lemma_step_keeps_wf(gated);
    }
}

/// A movement tick keeps the state well formed.
proof fn lemma_step_keeps_wf(pre: SimState)
    requires
        pre.wf(),
    ensures
        pre.after_step().wf(),
{
    if pre.can_step() {
        lemma_step_back(pre.grid, pre.entities.snake[0], pre.snake_state.direction);
        let post = pre.after_step();
        assert forall|i: int| 0 <= i < post.entities.snake.len() implies pre.grid.spec_contains(
            #[trigger] post.entities.snake[i],
        ) by {
            if i > 0 {
                assert(post.entities.snake[i] == pre.entities.snake[i - 1]);
            }
        }
    }
}

/// Follow-the-leader. In a movement tick the head moves to the cell next to
/// its old one along the heading, wrapped at the edge, and every other
/// segment moves to the cell that the segment before it had before the tick.
/// A segment that the tick adds lies on the cell that the tail had.
pub proof fn lemma_follow_the_leader(pre: SimState)
    requires
        pre.wf(),
        pre.can_step(),
    ensures
        pre.after_step().entities.snake[0] == pre.grid.spec_advance(
            pre.entities.snake[0],
            pre.snake_state.direction,
        ),
        forall|i: int|
            0 < i < pre.entities.snake.len() ==> #[trigger] pre.after_step().entities.snake[i]
                == pre.entities.snake[i - 1],
        pre.after_step().entities.snake.len() == pre.entities.snake.len() + if pre.grows() {
            1int
        } else {
            0int
        },
        pre.grows() ==> pre.after_step().entities.snake.last() == pre.entities.snake.last(),
        pre.after_step().entities.food == pre.entities.food,
        pre.after_step().snake_state == pre.snake_state,
{
}

/// No reversal. While the game runs, an intent opposite to the heading, or
/// equal to it, changes nothing; any other intent becomes the heading and
/// asks for an immediate step. So with the heading right, left is rejected
/// and up and down are accepted.
pub proof fn lemma_no_reversal(pre: SimState, intent: Direction)
    requires
        pre.status == GameStatus::Running,
    ensures
        intent == pre.snake_state.direction.spec_opposite() ==> pre.after_input(Some(intent)) == pre,
        intent == pre.snake_state.direction ==> pre.after_input(Some(intent)) == pre,
        intent != pre.snake_state.direction && intent != pre.snake_state.direction.spec_opposite() ==> {
            &&& pre.after_input(Some(intent)).snake_state.direction == intent
            &&& pre.after_input(Some(intent)).snake_state.force_step
        },
        pre.snake_state.direction == Direction::Right ==> {
            &&& pre.after_input(Some(Direction::Left)) == pre
            &&& pre.after_input(Some(Direction::Up)).snake_state.direction == Direction::Up
            &&& pre.after_input(Some(Direction::Down)).snake_state.direction == Direction::Down
        },
        pre.after_input(None) == pre,
{
}

/// Growth queuing. When the snake eats, the growth queue goes up by exactly
/// one and the snake keeps its length; the next movement tick adds exactly
/// one segment and takes the queue back to where it was. The queue saturates
/// at `u32::MAX` and a snake has at most `u32::MAX` segments, so the law
/// speaks of states below both limits.
pub proof fn lemma_growth_queuing(pre: SimState, drawn: Option<GridPosition>)
    requires
        pre.wf(),
        pre.eats(),
        pre.growth.pending < u32::MAX,
        pre.entities.snake.len() < u32::MAX,
    ensures
        pre.after_food_collision(drawn).growth.pending == pre.growth.pending + 1,
        pre.after_food_collision(drawn).entities.snake == pre.entities.snake,
        pre.after_food_collision(drawn).after_step().entities.snake.len() == pre.entities.snake.len() + 1,
        pre.after_food_collision(drawn).after_step().growth.pending == pre.growth.pending,
{
}

/// The growth queue goes down only in a movement tick that adds a segment,
/// and then by one.
pub proof fn lemma_growth_is_spent_on_segments(pre: SimState)
    requires
        pre.wf(),
    ensures
        pre.after_step().growth.pending == pre.growth.pending - (pre.after_step().entities.snake.len()
            - pre.entities.snake.len()),
        pre.entities.snake.len() <= pre.after_step().entities.snake.len() <= pre.entities.snake.len() + 1,
{
}

/// When the snake eats, the food ends on a cell of the board: the drawn cell
/// if that is free, else the cell it had. The snake and the status are not
/// touched.
pub proof fn lemma_food_relocation(pre: SimState, drawn: Option<GridPosition>)
    requires
        pre.wf(),
        pre.eats(),
    ensures
        pre.after_food_collision(drawn).entities.food is Some,
        pre.found_free_cell(drawn) ==> pre.after_food_collision(drawn).entities.food == drawn
            && !pre.after_food_collision(drawn).eats(),
        !pre.found_free_cell(drawn) ==> pre.after_food_collision(drawn).entities.food == pre.entities.food,
        pre.after_food_collision(drawn).status == pre.status,
{
    if pre.found_free_cell(drawn) {
        assert(pre.entities.snake[0] != drawn->0);
    }
}

/// Self-collision. A movement tick ends the game exactly when the head's new
/// cell is also the new cell of another segment.
pub proof fn lemma_self_collision(pre: SimState)
    requires
        pre.wf(),
        pre.can_step(),
    ensures
        pre.after_step().status == GameStatus::GameOver <==> exists|i: int|
            1 <= i < pre.after_step().entities.snake.len() && #[trigger] pre.after_step().entities.snake[i]
                == pre.after_step().entities.snake[0],
{
}

/// Once the game is over, input, movement and food processing change
/// nothing; only a restart leads back to a running game.
pub proof fn lemma_game_over_is_final(
    pre: SimState,
    intent: Option<Direction>,
    delta_nanos: u64,
    drawn: Option<GridPosition>,
)
    requires
        pre.status == GameStatus::GameOver,
    ensures
        pre.after_input(intent) == pre,
        pre.after_step() == pre,
        pre.after_move(delta_nanos) == pre,
        pre.after_food_init(drawn) == pre,
        pre.after_food_collision(drawn) == pre,
        pre.restarted().status == GameStatus::Running,
{
}

/// The game ends only in a movement tick.
pub proof fn lemma_only_movement_ends_the_game(
    pre: SimState,
    intent: Option<Direction>,
    drawn: Option<GridPosition>,
)
    requires
        pre.status == GameStatus::Running,
    ensures
        pre.start_emitted().status == GameStatus::Running,
        pre.snake_initialized().status == GameStatus::Running,
        pre.after_input(intent).status == GameStatus::Running,
        pre.after_food_init(drawn).status == GameStatus::Running,
        pre.after_food_collision(drawn).status == GameStatus::Running,
{
}

/// On a board at least four cells wide a fresh snake lies unwrapped: the
/// head on the middle cell, the two other segments on the next two cells to
/// its left.
pub proof fn lemma_fresh_snake_cells(grid: GridSize)
    requires
        grid.wf(),
        grid.width >= 4,
    ensures
        SimState::initial_snake(grid) == seq![
            GridPosition { x: grid.width / 2, y: grid.height / 2 },
            GridPosition { x: (grid.width / 2 - 1) as u32, y: grid.height / 2 },
            GridPosition { x: (grid.width / 2 - 2) as u32, y: grid.height / 2 },
        ],
        forall|i: int|
            0 <= i < INITIAL_SEGMENTS ==> grid.spec_contains(#[trigger] SimState::initial_snake(grid)[i]),
{
}

/// Restart. Whatever the state was, after a restart and the snake's
/// initializer the snake has three segments, the growth queue is empty, the
/// heading is right, the game runs and there is no food yet. The food's
/// initializer then puts exactly one food on the board as soon as a free
/// cell is drawn for it, and until then the signal keeps waiting. A second
/// restart changes nothing.
pub proof fn lemma_restart(pre: SimState, drawn: Option<GridPosition>)
    requires
        pre.wf(),
    ensures
        pre.restarted() == SimState::initial(pre.grid).start_emitted(),
        pre.restarted().restarted() == pre.restarted(),
        pre.restarted().snake_initialized().entities.snake.len() == INITIAL_SEGMENTS,
        pre.restarted().snake_initialized().growth.pending == 0,
        pre.restarted().snake_initialized().snake_state.direction == Direction::Right,
        pre.restarted().snake_initialized().snake_state.timer.elapsed_nanos == 0,
        !pre.restarted().snake_initialized().snake_state.force_step,
        pre.restarted().snake_initialized().status == GameStatus::Running,
        pre.restarted().snake_initialized().entities.food is None,
        pre.restarted().snake_initialized().food_due(),
        pre.restarted().snake_initialized().found_free_cell(drawn) ==> {
            &&& pre.restarted().snake_initialized().after_food_init(drawn).entities.food == drawn
            &&& !pre.restarted().snake_initialized().after_food_init(drawn).food_due()
        },
        !pre.restarted().snake_initialized().found_free_cell(drawn)
            ==> pre.restarted().snake_initialized().after_food_init(drawn)
            == pre.restarted().snake_initialized(),
{
}

/// The start signal is consumed once by each initializer: after the
/// snake's initializer has run, running it again changes nothing until the
/// next emission, and likewise for the food's.
pub proof fn lemma_start_signal_is_consumed_once(pre: SimState, drawn: Option<GridPosition>, again: Option<GridPosition>)
    ensures
        pre.snake_initialized().snake_initialized() == pre.snake_initialized(),
        pre.snake_initialized().start.for_food == pre.start.for_food,
        pre.after_food_init(drawn) != pre ==> pre.after_food_init(drawn).after_food_init(again)
            == pre.after_food_init(drawn),
        pre.after_food_init(drawn).start.for_snake == pre.start.for_snake,
{
}

/// A step that a change of heading asked for is taken at once, whatever the
/// timer holds, and starts the timer's period anew: the next pass steps
/// again only if a full period has passed or another step was asked for.
pub proof fn lemma_forced_step_resets_timer(pre: SimState, delta_nanos: u64, next_delta_nanos: u64)
    requires
        pre.can_step(),
        pre.snake_state.force_step,
    ensures
        pre.steps_after(delta_nanos),
        pre.after_move(delta_nanos).snake_state.timer.elapsed_nanos == 0,
        !pre.after_move(delta_nanos).snake_state.force_step,
        next_delta_nanos < pre.snake_state.timer.period_nanos ==> !pre.after_move(delta_nanos).steps_after(
            next_delta_nanos,
        ),
{
}

/// The segments' indices are contiguous from zero: the segment at place `i`
/// from the head has index `i`, so index 0 is the head's alone.
pub proof fn lemma_indices_are_contiguous(entities: Entities)
    requires
        entities.snake.len() <= u32::MAX,
    ensures
        entities.segments().len() == entities.snake.len(),
        forall|i: int|
            0 <= i < entities.snake.len() ==> (#[trigger] entities.segments()[i]).index == i
                && entities.segments()[i].position == entities.snake[i],
        forall|i: int, j: int|
            0 <= i < entities.snake.len() && 0 <= j < entities.snake.len() && i != j
                ==> (#[trigger] entities.segments()[i]).index != (#[trigger] entities.segments()[j]).index,
{
}

/// Each engine keeps to its own state. The food engine and the initializers
/// never touch the snake's cells, heading or timer, and the food engine
/// touches the growth queue only to add to it; the movement engine and the
/// direction-intent step never touch the food or the start signal.
pub proof fn lemma_engines_keep_to_their_own_state(
    pre: SimState,
    intent: Option<Direction>,
    delta_nanos: u64,
    drawn: Option<GridPosition>,
)
    ensures
        pre.after_food_init(drawn).entities.snake == pre.entities.snake,
        pre.after_food_init(drawn).snake_state == pre.snake_state,
        pre.after_food_init(drawn).growth == pre.growth,
        pre.after_food_collision(drawn).entities.snake == pre.entities.snake,
        pre.after_food_collision(drawn).snake_state == pre.snake_state,
        pre.after_food_collision(drawn).growth.pending >= pre.growth.pending,
        pre.after_food_collision(drawn).start == pre.start,
        pre.snake_initialized().entities.food == pre.entities.food,
        pre.snake_initialized().growth == pre.growth,
        pre.snake_initialized().snake_state == pre.snake_state,
        pre.after_input(intent).entities == pre.entities,
        pre.after_input(intent).growth == pre.growth,
        pre.after_input(intent).start == pre.start,
        pre.after_step().entities.food == pre.entities.food,
        pre.after_step().start == pre.start,
        pre.after_move(delta_nanos).entities.food == pre.entities.food,
        pre.after_move(delta_nanos).start == pre.start,
        pre.after_move(delta_nanos).snake_state.direction == pre.snake_state.direction,
{
}

} // verus!
