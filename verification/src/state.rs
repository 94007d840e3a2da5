//! The simulation's resources and its mathematical model: the state of a
//! game as a plain value, and each operation of the engine as a function from
//! state to state.

use vstd::prelude::*;
use crate::components::GridPosition;
use crate::entities::Entities;
use crate::grid::{Direction, GridSize};
use crate::timer::{StepTimer, STEP_PERIOD_NANOS};

verus! {

/// Number of segments of a freshly started snake.
pub const INITIAL_SEGMENTS: u32 = 3;

/// Whether the game is being played or has ended.
#[derive(Clone, Copy, Debug, PartialEq, Eq, Structural)]
pub enum GameStatus {
    Running,
    GameOver,
}

impl Default for GameStatus {
    fn default() -> (status: GameStatus)
        ensures
            status == GameStatus::Running,
    {
        GameStatus::Running
    }
}

/// The number of segments that the snake has yet to grow by.
#[derive(Clone, Copy, Debug, PartialEq, Eq, Structural)]
pub struct Growth {
    pub pending: u32,
}

impl Default for Growth {
    fn default() -> (growth: Growth)
        ensures
            growth == (Growth { pending: 0 }),
    {
        Growth { pending: 0 }
    }
}

/// The snake's heading, the timer that paces its steps, and whether a change
/// of heading has asked for a step ahead of the timer.
#[derive(Clone, Copy, Debug, PartialEq, Eq, Structural)]
pub struct SnakeState {
    pub direction: Direction,
    pub timer: StepTimer,
    pub force_step: bool,
}

impl SnakeState {
    /// The state at the start of a game: heading right, a fresh timer of the
    /// default period, no step asked for.
    pub open spec fn initial() -> SnakeState {
        SnakeState {
            direction: Direction::Right,
            timer: StepTimer { period_nanos: STEP_PERIOD_NANOS, elapsed_nanos: 0 },
            force_step: false,
        }
    }
}

impl Default for SnakeState {
    fn default() -> (state: SnakeState)
        ensures
            state == SnakeState::initial(),
    {
        SnakeState {
            direction: Direction::Right,
            timer: StepTimer::new(STEP_PERIOD_NANOS),
            force_step: false,
        }
    }
}

/// The game-start signal. One emission is seen once by each of its two
/// consumers, the snake's initializer and the food's.
#[derive(Clone, Copy, Debug, PartialEq, Eq, Structural)]
pub struct StartSignal {
    pub for_snake: bool,
    pub for_food: bool,
}

impl StartSignal {
    /// No emission is waiting.
    pub fn new() -> (signal: StartSignal)
        ensures
            signal == (StartSignal { for_snake: false, for_food: false }),
    {
        StartSignal { for_snake: false, for_food: false }
    }

    /// Emits the signal to both consumers.
    pub fn emit(&mut self)
        ensures
            *final(self) == (StartSignal { for_snake: true, for_food: true }),
    {
        self.for_snake = true;
        self.for_food = true;
    }
}

/// The state of a game.
pub struct SimState {
    pub grid: GridSize,
    pub snake_state: SnakeState,
    pub growth: Growth,
    pub status: GameStatus,
    pub start: StartSignal,
    pub entities: Entities,
}

impl SimState {
    /// The board has cells, every entity lies on the board, and the segments'
    /// indices fit in 32 bits.
    pub open spec fn wf(self) -> bool {
        &&& self.grid.wf()
        &&& self.entities.snake.len() <= u32::MAX
        &&& forall|i: int|
            0 <= i < self.entities.snake.len() ==> self.grid.spec_contains(#[trigger] self.entities.snake[i])
        &&& self.entities.food matches Some(cell) ==> self.grid.spec_contains(cell)
    }

    /// Whether `cell` lies on the board and no segment of the snake on it.
    pub open spec fn is_free_cell(self, cell: GridPosition) -> bool {
        self.grid.spec_contains(cell) && self.entities.is_free(cell)
    }

    /// Whether a draw found a free cell of the board.
    pub open spec fn found_free_cell(self, drawn: Option<GridPosition>) -> bool {
        drawn matches Some(cell) && self.is_free_cell(cell)
    }

    /// A session before its first start signal: running, nothing on the
    /// board, nothing queued.
    pub open spec fn initial(grid: GridSize) -> SimState {
        SimState {
            grid,
            snake_state: SnakeState::initial(),
            growth: Growth { pending: 0 },
            status: GameStatus::Running,
            start: StartSignal { for_snake: false, for_food: false },
            entities: Entities { snake: Seq::empty(), food: None },
        }
    }

    /// The state after a start signal was emitted.
    pub open spec fn start_emitted(self) -> SimState {
        SimState { start: StartSignal { for_snake: true, for_food: true }, ..self }
    }

    /// The cells of a fresh snake: the head in the middle of the board, each
    /// further segment one cell to the left of the one before.
    pub open spec fn initial_snake(grid: GridSize) -> Seq<GridPosition> {
        let head = GridPosition { x: grid.width / 2, y: grid.height / 2 };
        let neck = grid.spec_advance(head, Direction::Left);
        let tail = grid.spec_advance(neck, Direction::Left);
        seq![head, neck, tail]
    }

    /// The snake's initializer: on a start signal it consumes the signal and
    /// replaces the snake by a fresh one.
    pub open spec fn snake_initialized(self) -> SimState {
        if self.start.for_snake {
            SimState {
                start: StartSignal { for_snake: false, ..self.start },
                entities: Entities { snake: Self::initial_snake(self.grid), ..self.entities },
                ..self
            }
        } else {
            self
        }
    }

    /// Whether an intent changes the heading: the game runs, and the intent
    /// is neither the current heading nor its opposite.
    pub open spec fn accepts(self, intent: Direction) -> bool {
        &&& self.status == GameStatus::Running
        &&& intent != self.snake_state.direction
        &&& intent != self.snake_state.direction.spec_opposite()
    }

    /// The direction-intent step: an accepted intent becomes the heading and
    /// asks for an immediate step.
    pub open spec fn after_input(self, intent: Option<Direction>) -> SimState {
        match intent {
            Some(direction) if self.accepts(direction) => SimState {
                snake_state: SnakeState { direction, force_step: true, ..self.snake_state },
                ..self
            },
            _ => self,
        }
    }

    /// Whether a movement tick does anything: the game runs and the snake has
    /// a segment.
    pub open spec fn can_step(self) -> bool {
        self.status == GameStatus::Running && self.entities.snake.len() > 0
    }

    /// The cell that the head moves to in the next tick.
    pub open spec fn next_head(self) -> GridPosition
        recommends
            self.entities.snake.len() > 0,
    {
        self.grid.spec_advance(self.entities.snake[0], self.snake_state.direction)
    }

    /// Whether the next tick adds a segment.
    pub open spec fn grows(self) -> bool {
        self.growth.pending > 0 && self.entities.can_grow()
    }

    /// One movement tick: the head advances one cell along the heading, every
    /// other segment follows the one before it, one queued growth becomes a
    /// new last segment on the cell that the tail left, and the game is over
    /// if the head then shares its cell with another segment.
    pub open spec fn after_step(self) -> SimState {
        if self.can_step() {
            let entities = Entities {
                snake: self.entities.shifted(self.next_head(), self.growth.pending > 0),
                ..self.entities
            };
            SimState {
                entities,
                growth: Growth {
                    pending: if self.grows() { (self.growth.pending - 1) as u32 } else { self.growth.pending },
                },
                status: if entities.head_hits_body() { GameStatus::GameOver } else { GameStatus::Running },
                ..self
            }
        } else {
            self
        }
    }

    /// The state after `ticks` movement ticks in a row.
    pub open spec fn after_steps(self, ticks: nat) -> SimState
        decreases ticks,
    {
        if ticks == 0 {
            self
        } else {
            self.after_step().after_steps((ticks - 1) as nat)
        }
    }

    /// Whether the snake lies in a straight line behind its head: each
    /// segment one cell further against the heading, around the board's edge
    /// where the line crosses it.
    pub open spec fn is_straight(self) -> bool {
        forall|i: int|
            0 <= i < self.entities.snake.len() ==> #[trigger] self.entities.snake[i]
                == self.grid.spec_advance_by(
                self.entities.snake[0],
                self.snake_state.direction.spec_opposite(),
                i as nat,
            )
    }

    /// Whether a pass of the movement engine after `delta_nanos` runs a tick:
    /// the timer fires or a step was asked for.
    pub open spec fn steps_after(self, delta_nanos: u64) -> bool {
        self.can_step() && (self.snake_state.force_step || self.snake_state.timer.spec_fires(delta_nanos))
    }

    /// One pass of the movement engine, `delta_nanos` after the previous one.
    /// The timer advances; a step that was asked for is taken at once and
    /// starts the timer's period anew.
    pub open spec fn after_move(self, delta_nanos: u64) -> SimState {
        if self.can_step() {
            let ticked = self.snake_state.timer.spec_ticked(delta_nanos);
            let gated = SimState {
                snake_state: SnakeState {
                    timer: if self.snake_state.force_step { ticked.spec_reset() } else { ticked },
                    force_step: false,
                    ..self.snake_state
                },
                ..self
            };
            if self.steps_after(delta_nanos) { gated.after_step() } else { gated }
        } else {
            self
        }
    }

    /// Whether the food's initializer is due: the game runs, the snake has a
    /// segment and a start signal waits for the food.
    pub open spec fn food_due(self) -> bool {
        self.status == GameStatus::Running && self.entities.snake.len() > 0 && self.start.for_food
    }

    /// The food's initializer, given the cell that was drawn for the food, if
    /// any: a free cell takes the food and consumes the signal; without one
    /// the signal keeps waiting.
    pub open spec fn after_food_init(self, drawn: Option<GridPosition>) -> SimState {
        if self.food_due() && self.found_free_cell(drawn) {
            SimState {
                start: StartSignal { for_food: false, ..self.start },
                entities: Entities { food: drawn, ..self.entities },
                ..self
            }
        } else {
            self
        }
    }

    /// Whether the snake eats: the game runs and the head lies on the food.
    pub open spec fn eats(self) -> bool {
        self.status == GameStatus::Running && self.entities.head_on_food()
    }

    /// The food engine's overlap check, given the cell that was drawn for the
    /// food's new place, if any: when the snake eats, the food moves to that
    /// cell if it is free, and stays otherwise; one growth is queued.
    pub open spec fn after_food_collision(self, drawn: Option<GridPosition>) -> SimState {
        if self.eats() {
            SimState {
                entities: Entities {
                    food: if self.found_free_cell(drawn) { drawn } else { self.entities.food },
                    ..self.entities
                },
                growth: Growth {
                    pending: if self.growth.pending < u32::MAX {
                        (self.growth.pending + 1) as u32
                    } else {
                        self.growth.pending
                    },
                },
                ..self
            }
        } else {
            self
        }
    }

    /// A restart: the board is cleared, heading, timer, growth queue and
    /// status are as at the start of a session, and a start signal is emitted.
    pub open spec fn restarted(self) -> SimState {
        Self::initial(self.grid).start_emitted()
    }

    /// One frame, in the engine's fixed order: the snake's initializer, the
    /// food's initializer, the direction-intent step, the movement engine,
    /// the food engine's overlap check. `placed` and `moved` are the cells
    /// drawn for the food by the initializer and by the overlap check.
    pub open spec fn after_frame(
        self,
        intent: Option<Direction>,
        delta_nanos: u64,
        placed: Option<GridPosition>,
        moved: Option<GridPosition>,
    ) -> SimState {
        self.snake_initialized().after_food_init(placed).after_input(intent).after_move(
            delta_nanos,
        ).after_food_collision(moved)
    }
}

} // verus!
