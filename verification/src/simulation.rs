//! The engine: a game's state, and the operations that the frame loop runs on
//! it. Each operation's contract gives the state afterwards as a function of
//! the state before.

use vstd::prelude::*;
use crate::components::{Food, GridPosition, SnakeSegment};
use crate::entities::EntityStore;
use crate::grid::{Direction, GridSize};
use crate::random::RandomSource;
use crate::state::{GameStatus, Growth, SimState, SnakeState, StartSignal};
use crate::timer::StepTimer;

verus! {

/// What one frame did.
#[derive(Clone, Copy, Debug, PartialEq, Eq, Structural)]
pub struct FrameReport {
    /// Whether a movement tick ran.
    pub stepped: bool,
    /// The cell drawn for the food by its initializer.
    pub placed: Option<GridPosition>,
    /// The cell drawn for the food after the snake ate.
    pub moved: Option<GridPosition>,
    /// Whether the game is over at the end of the frame.
    pub game_over: bool,
}

/// A game of snake.
pub struct Simulation {
    grid: GridSize,
    snake_state: SnakeState,
    growth: Growth,
    status: GameStatus,
    start: StartSignal,
    entities: EntityStore,
}

impl View for Simulation {
    type V = SimState;

    closed spec fn view(&self) -> SimState {
        SimState {
            grid: self.grid,
            snake_state: self.snake_state,
            growth: self.growth,
            status: self.status,
            start: self.start,
            entities: self.entities@,
        }
    }
}

impl Simulation {
    #[verifier::type_invariant]
    spec fn valid(self) -> bool {
        self@.wf()
    }

    /// A session on the given board before its first start signal, or `None`
    /// if the board has no cell.
    pub fn new(grid: GridSize) -> (created: Option<Simulation>)
        ensures
            grid.wf() ==> created is Some && created->0@ == SimState::initial(grid),
            !grid.wf() ==> created is None,
    {
        if grid.is_valid() {
            let simulation = Simulation {
                grid,
                snake_state: SnakeState::default(),
                growth: Growth::default(),
                status: GameStatus::default(),
                start: StartSignal::new(),
                entities: EntityStore::new(),
            };
            assert(simulation@.entities.snake =~= Seq::empty());
            Some(simulation)
        } else {
            None
        }
    }

    /// The board.
    pub fn grid(&self) -> (grid: GridSize)
        ensures
            grid == self@.grid,
            self@.wf(),
    {
        proof {
            use_type_invariant(self);
        }
        self.grid
    }

    /// Whether the game runs or has ended.
    pub fn status(&self) -> (status: GameStatus)
        ensures
            status == self@.status,
    {
        self.status
    }

    /// The snake's heading.
    pub fn direction(&self) -> (direction: Direction)
        ensures
            direction == self@.snake_state.direction,
    {
        self.snake_state.direction
    }

    /// Heading, timer and the request for a step ahead of the timer.
    pub fn snake_state(&self) -> (state: SnakeState)
        ensures
            state == self@.snake_state,
    {
        self.snake_state
    }

    /// The growth queue.
    pub fn growth(&self) -> (growth: Growth)
        ensures
            growth == self@.growth,
    {
        self.growth
    }

    /// The start signal, as its two consumers see it.
    pub fn start_signal(&self) -> (signal: StartSignal)
        ensures
            signal == self@.start,
    {
        self.start
    }

    /// The number of segments of the snake.
    pub fn segment_count(&self) -> (count: usize)
        ensures
            count == self@.entities.snake.len(),
    {
        self.entities.segment_count()
    }

    /// The snake's segments from head to tail, each on a cell of the board.
    pub fn segments(&self) -> (all: Vec<SnakeSegment>)
        ensures
            all@ == self@.entities.segments(),
            self@.wf(),
    {
        proof {
            use_type_invariant(self);
        }
        self.entities.segments()
    }

    /// The head's cell, if the snake has a segment.
    pub fn head(&self) -> (cell: Option<GridPosition>)
        ensures
            cell == if self@.entities.snake.len() > 0 {
                Some(self@.entities.snake[0])
            } else {
                None
            },
    {
        self.entities.head()
    }

    /// The food, if there is any.
    pub fn food(&self) -> (food: Option<Food>)
        ensures
            food == match self@.entities.food {
                Some(cell) => Some(Food { position: cell }),
                None => None,
            },
    {
        self.entities.food()
    }

    /// Emits the game-start signal.
    pub fn emit_game_start(&mut self)
        ensures
            final(self)@ == old(self)@.start_emitted(),
    {
        proof {
            use_type_invariant(&*self);
        }
        self.start = StartSignal { for_snake: true, for_food: true };
    }

    /// The snake's initializer. On a start signal it consumes the signal and
    /// replaces the snake by a fresh one of three segments: the head in the
    /// middle of the board, the body trailing to the left.
    pub fn initialize_snake(&mut self)
        ensures
            final(self)@ == old(self)@.snake_initialized(),
    {
        proof {
            use_type_invariant(&*self);
        }
        if !self.start.for_snake {
            return;
        }
        let head = GridPosition { x: self.grid.width / 2, y: self.grid.height / 2 };
        let neck: GridPosition = self.grid.advance(head, Direction::Left);
        let tail: GridPosition = self.grid.advance(neck, Direction::Left);
        let mut entities: EntityStore = EntityStore::new();
        match self.entities.food() {
            Some(food) => entities.place_food(food.position),
            None => {},
        }
        entities.spawn_segment(head);
        entities.spawn_segment(neck);
        entities.spawn_segment(tail);
        assert(entities@.snake =~= SimState::initial_snake(self.grid));
        self.entities = entities;
        self.start = StartSignal { for_snake: false, for_food: self.start.for_food };
    }

    /// The direction-intent step. While the game runs, an intent that is
    /// neither the current heading nor its opposite becomes the heading and
    /// asks for an immediate step. Returns whether the heading changed.
    pub fn snake_input(&mut self, intent: Option<Direction>) -> (accepted: bool)
        ensures
            final(self)@ == old(self)@.after_input(intent),
            accepted == (intent matches Some(direction) && old(self)@.accepts(direction)),
    {
        proof {
            use_type_invariant(&*self);
        }
        if self.status == GameStatus::GameOver {
            return false;
        }
        match intent {
            Some(direction) => {
                let current: Direction = self.snake_state.direction;
                if direction != current.opposite() && direction != current {
                    self.snake_state = SnakeState {
                        direction,
                        timer: self.snake_state.timer,
                        force_step: true,
                    };
                    true
                } else {
                    false
                }
            },
            None => false,
        }
    }

    /// One movement tick. While the game runs and the snake has a segment,
    /// the head advances one cell along the heading, wrapping at the edges;
    /// every other segment takes the cell that the segment before it had; one
    /// queued growth becomes a new last segment on the cell that the tail
    /// left; and the game is over if the head then shares its cell with
    /// another segment. Returns whether the head ran into the body.
    pub fn step(&mut self) -> (collided: bool)
        ensures
            final(self)@ == old(self)@.after_step(),
            collided == (old(self)@.can_step() && final(self)@.entities.head_hits_body()),
    {
        proof {
            use_type_invariant(&*self);
        }
        if self.status == GameStatus::GameOver {
            return false;
        }
        let head: GridPosition = match self.entities.head() {
            Some(cell) => cell,
            None => {
                return false;
            },
        };
        let head_to: GridPosition = self.grid.advance(head, self.snake_state.direction);
        let mut entities: EntityStore = EntityStore::new();
        std::mem::swap(&mut entities, &mut self.entities);
        let grew: bool = entities.shift_snake(head_to, self.growth.pending > 0);
        let collided: bool = entities.head_hits_body();
        self.entities = entities;
        if grew {
            self.growth = Growth { pending: self.growth.pending - 1 };
        }
        if collided {
            self.status = GameStatus::GameOver;
        }
        collided
    }

    /// One pass of the movement engine, `delta_nanos` after the previous one.
    /// While the game runs and the snake has a segment, the timer advances,
    /// and a movement tick runs if the timer fired or a change of heading
    /// asked for a step; such a step starts the timer's period anew, so that
    /// the timer does not add a second step right after it. Returns whether a
    /// tick ran.
    pub fn snake_move(&mut self, delta_nanos: u64) -> (stepped: bool)
        ensures
            final(self)@ == old(self)@.after_move(delta_nanos),
            stepped == old(self)@.steps_after(delta_nanos),
    {
        proof {
            use_type_invariant(&*self);
        }
        if self.status == GameStatus::GameOver || self.entities.segment_count() == 0 {
            return false;
        }
        let mut timer: StepTimer = self.snake_state.timer;
        let fired: bool = timer.tick(delta_nanos);
        let forced: bool = self.snake_state.force_step;
        if forced {
            timer.reset();
        }
        self.snake_state = SnakeState { direction: self.snake_state.direction, timer, force_step: false };
        if fired || forced {
            self.step();
            true
        } else {
            false
        }
    }

    /// Whether `cell` lies on the board and no segment of the snake on it.
    pub fn is_free_cell(&self, cell: GridPosition) -> (free: bool)
        ensures
            free == self@.is_free_cell(cell),
    {
        self.grid.contains(cell) && self.entities.is_free(cell)
    }

    /// Draws cells until one is free, at most once per cell of the board.
    /// Returns the free cell, or `None` if every draw hit the snake.
    pub fn draw_free_cell(&self, rand: &mut RandomSource) -> (drawn: Option<GridPosition>)
        ensures
            drawn matches Some(cell) ==> self@.is_free_cell(cell),
            self@.entities.snake.len() == 0 ==> drawn is Some,
    {
        proof {
            use_type_invariant(self);
        }
        let attempts: u64 = self.grid.cell_count();
        assert(attempts >= 1) by (nonlinear_arith)
            requires
                attempts == (self.grid.width as nat) * (self.grid.height as nat),
                self.grid.width >= 1,
                self.grid.height >= 1,
        ;
        let mut attempt: u64 = 0;
        while attempt < attempts
            invariant
                self.grid.wf(),
                attempt <= attempts,
                attempt > 0 ==> self@.entities.snake.len() > 0,
            decreases attempts - attempt,
        {
            let cell: GridPosition = rand.random_cell(&self.grid);
            if self.entities.is_free(cell) {
                return Some(cell);
            }
            attempt += 1;
        }
        None
    }

    /// The food's initializer, for a given draw. While the game runs, the
    /// snake has a segment and a start signal waits for the food: if `drawn`
    /// is a free cell of the board, the food is put there and the signal is
    /// consumed; otherwise nothing changes and the signal keeps waiting.
    pub fn initialize_food_with(&mut self, drawn: Option<GridPosition>)
        ensures
            final(self)@ == old(self)@.after_food_init(drawn),
    {
        proof {
            use_type_invariant(&*self);
        }
        if self.status == GameStatus::GameOver || self.entities.segment_count() == 0 || !self.start.for_food {
            return;
        }
        match drawn {
            Some(cell) => {
                if self.is_free_cell(cell) {
                    let mut entities: EntityStore = EntityStore::new();
                    std::mem::swap(&mut entities, &mut self.entities);
                    entities.place_food(cell);
                    self.entities = entities;
                    self.start = StartSignal { for_snake: self.start.for_snake, for_food: false };
                }
            },
            None => {},
        }
    }

    /// The food's initializer. When it is due it draws a free cell and puts
    /// the food there; if no draw found a free cell, the signal keeps waiting
    /// and the next pass tries again. Returns the cell that was drawn.
    pub fn initialize_food(&mut self, rand: &mut RandomSource) -> (drawn: Option<GridPosition>)
        ensures
            final(self)@ == old(self)@.after_food_init(drawn),
            drawn matches Some(cell) ==> old(self)@.food_due() && old(self)@.is_free_cell(cell),
    {
        if self.status == GameStatus::GameOver || self.entities.segment_count() == 0 || !self.start.for_food {
            return None;
        }
        let drawn: Option<GridPosition> = self.draw_free_cell(rand);
        self.initialize_food_with(drawn);
        drawn
    }

    /// The food engine's overlap check, for a given draw. While the game runs
    /// and the head lies on the food: the food moves to `drawn` if that is a
    /// free cell of the board and stays where it is otherwise, and one growth
    /// is queued (the queue saturates at `u32::MAX`).
    pub fn resolve_food_collision(&mut self, drawn: Option<GridPosition>)
        ensures
            final(self)@ == old(self)@.after_food_collision(drawn),
    {
        proof {
            use_type_invariant(&*self);
        }
        if self.status == GameStatus::GameOver || !self.entities.head_on_food() {
            return;
        }
        match drawn {
            Some(cell) => {
                if self.is_free_cell(cell) {
                    let mut entities: EntityStore = EntityStore::new();
                    std::mem::swap(&mut entities, &mut self.entities);
                    entities.place_food(cell);
                    self.entities = entities;
                }
            },
            None => {},
        }
        self.growth = Growth { pending: self.growth.pending.saturating_add(1) };
    }

    /// The food engine's overlap check. When the snake eats, it draws a free
    /// cell for the food; if no draw found one, the food stays where it is.
    /// Either way one growth is queued. Returns the cell that was drawn.
    pub fn handle_food_collision(&mut self, rand: &mut RandomSource) -> (drawn: Option<GridPosition>)
        ensures
            final(self)@ == old(self)@.after_food_collision(drawn),
            drawn matches Some(cell) ==> old(self)@.eats() && old(self)@.is_free_cell(cell),
    {
        if self.status == GameStatus::GameOver || !self.entities.head_on_food() {
            return None;
        }
        let drawn: Option<GridPosition> = self.draw_free_cell(rand);
        self.resolve_food_collision(drawn);
        drawn
    }

    /// Restarts the game in one step: clears the snake and the food, resets
    /// heading, timer, growth queue and status, and emits a start signal for
    /// the initializers.
    pub fn restart(&mut self)
        ensures
            final(self)@ == old(self)@.restarted(),
    {
        proof {
            use_type_invariant(&*self);
        }
        self.entities = EntityStore::new();
        self.status = GameStatus::Running;
        self.growth = Growth { pending: 0 };
        self.snake_state = SnakeState::default();
        self.start = StartSignal { for_snake: true, for_food: true };
        assert(self@.entities.snake =~= Seq::empty());
    }

    /// Runs one frame: the snake's initializer, the food's initializer, the
    /// direction-intent step with `intent`, the movement engine with
    /// `delta_nanos` since the previous frame, and the food engine's overlap
    /// check, in this order.
    pub fn update(&mut self, intent: Option<Direction>, delta_nanos: u64, rand: &mut RandomSource) -> (report:
        FrameReport)
        ensures
            final(self)@ == old(self)@.after_frame(intent, delta_nanos, report.placed, report.moved),
            report.stepped == old(self)@.snake_initialized().after_food_init(report.placed).after_input(
                intent,
            ).steps_after(delta_nanos),
            report.game_over == (final(self)@.status == GameStatus::GameOver),
    {
        self.initialize_snake();
        let placed: Option<GridPosition> = self.initialize_food(rand);
        self.snake_input(intent);
        let stepped: bool = self.snake_move(delta_nanos);
        let moved: Option<GridPosition> = self.handle_food_collision(rand);
        FrameReport { stepped, placed, moved, game_over: self.status == GameStatus::GameOver }
    }
}

} // verus!
