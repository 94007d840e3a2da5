use rand::rngs::StdRng;
use rand::SeedableRng;
use snake_engine::state::INITIAL_SEGMENTS;
use snake_engine::{
    Direction, Food, GameStatus, GridPosition, GridSize, Growth, RandomSource, Simulation, SnakeSegment,
    SnakeState, StartSignal, StepTimer,
};

const PERIOD: u64 = 150_000_000;

fn at(x: u32, y: u32) -> GridPosition {
    GridPosition { x, y }
}

fn seeded(seed: u64) -> RandomSource {
    RandomSource::new(StdRng::seed_from_u64(seed))
}

/// A game on a board of the given size whose snake has been initialized.
fn started(width: u32, height: u32) -> Simulation {
    let mut game = Simulation::new(GridSize::new(width, height, 24).unwrap()).unwrap();
    game.emit_game_start();
    game.initialize_snake();
    game
}

fn cells(game: &Simulation) -> Vec<(u32, u32)> {
    game.segments().iter().map(|segment| (segment.position.x, segment.position.y)).collect()
}

fn food_cell(game: &Simulation) -> Option<(u32, u32)> {
    game.food().map(|food| (food.position.x, food.position.y))
}

/// Puts food on `cell` by feeding the draw to the engine.
fn feed(game: &mut Simulation, cell: GridPosition) {
    game.resolve_food_collision(Some(cell));
}

/// A ten by ten game whose snake has five segments:
/// (8,5) (7,5) (6,5) (5,5) (4,5), heading right, food far away.
fn long_snake() -> Simulation {
    let mut game = started(10, 10);
    game.initialize_food_with(Some(at(6, 5)));
    game.step();
    feed(&mut game, at(7, 5));
    game.step();
    feed(&mut game, at(0, 0));
    game.step();
    assert_eq!(cells(&game), vec![(8, 5), (7, 5), (6, 5), (5, 5), (4, 5)]);
    assert_eq!(game.growth(), Growth { pending: 0 });
    game
}

#[test]
fn new_game_is_running_and_empty() {
    let game = Simulation::new(GridSize::default()).unwrap();
    assert_eq!(game.grid(), GridSize { width: 30, height: 30, pixels: 24 });
    assert_eq!(game.status(), GameStatus::Running);
    assert_eq!(game.direction(), Direction::Right);
    assert_eq!(
        game.snake_state(),
        SnakeState {
            direction: Direction::Right,
            timer: StepTimer { period_nanos: PERIOD, elapsed_nanos: 0 },
            force_step: false,
        }
    );
    assert_eq!(game.growth(), Growth { pending: 0 });
    assert_eq!(game.start_signal(), StartSignal { for_snake: false, for_food: false });
    assert_eq!(game.segment_count(), 0);
    assert_eq!(game.head(), None);
    assert_eq!(game.food(), None);
}

#[test]
fn new_game_needs_a_board_with_cells() {
    assert!(Simulation::new(GridSize { width: 0, height: 10, pixels: 24 }).is_none());
    assert!(Simulation::new(GridSize { width: 10, height: 0, pixels: 24 }).is_none());
    assert!(Simulation::new(GridSize { width: 1, height: 1, pixels: 24 }).is_some());
}

#[test]
fn defaults_of_the_resources() {
    assert_eq!(GameStatus::default(), GameStatus::Running);
    assert_eq!(Growth::default(), Growth { pending: 0 });
    assert_eq!(SnakeState::default().direction, Direction::Right);
    assert_eq!(SnakeState::default().timer, StepTimer::new(PERIOD));
    assert!(!SnakeState::default().force_step);
    assert_eq!(StartSignal::new(), StartSignal { for_snake: false, for_food: false });
    let mut signal = StartSignal::new();
    signal.emit();
    assert_eq!(signal, StartSignal { for_snake: true, for_food: true });
}

#[test]
fn snake_is_not_initialized_without_a_signal() {
    let mut game = Simulation::new(GridSize::default()).unwrap();
    game.initialize_snake();
    assert_eq!(game.segment_count(), 0);
}

#[test]
fn initial_snake_sits_in_the_middle_trailing_left() {
    let game = started(30, 30);
    assert_eq!(
        game.segments(),
        vec![
            SnakeSegment { index: 0, position: at(15, 15) },
            SnakeSegment { index: 1, position: at(14, 15) },
            SnakeSegment { index: 2, position: at(13, 15) },
        ]
    );
    assert_eq!(game.segment_count(), INITIAL_SEGMENTS as usize);
    assert_eq!(game.head(), Some(at(15, 15)));
    assert_eq!(game.start_signal(), StartSignal { for_snake: false, for_food: true });
}

#[test]
fn initial_snake_wraps_on_a_narrow_board() {
    assert_eq!(cells(&started(3, 3)), vec![(1, 1), (0, 1), (2, 1)]);
    assert_eq!(cells(&started(2, 5)), vec![(1, 2), (0, 2), (1, 2)]);
    assert_eq!(cells(&started(1, 1)), vec![(0, 0), (0, 0), (0, 0)]);
    assert_eq!(cells(&started(4, 1)), vec![(2, 0), (1, 0), (0, 0)]);
}

#[test]
fn snake_initializer_consumes_the_signal_once() {
    let mut game = started(10, 10);
    game.step();
    let moved = cells(&game);
    game.initialize_snake();
    assert_eq!(cells(&game), moved);
    game.emit_game_start();
    game.initialize_snake();
    assert_eq!(cells(&game), vec![(5, 5), (4, 5), (3, 5)]);
}

#[test]
fn follow_the_leader() {
    let mut game = started(10, 10);
    assert!(!game.step());
    assert_eq!(cells(&game), vec![(6, 5), (5, 5), (4, 5)]);
    assert!(game.snake_input(Some(Direction::Up)));
    assert!(!game.step());
    assert_eq!(cells(&game), vec![(6, 6), (6, 5), (5, 5)]);
    assert!(!game.step());
    assert_eq!(cells(&game), vec![(6, 7), (6, 6), (6, 5)]);
    assert_eq!(
        game.segments().iter().map(|segment| segment.index).collect::<Vec<u32>>(),
        vec![0, 1, 2]
    );
}

#[test]
fn snake_wraps_around_the_right_edge() {
    let mut game = started(10, 10);
    for _ in 0..4 {
        game.step();
    }
    assert_eq!(cells(&game), vec![(9, 5), (8, 5), (7, 5)]);
    game.step();
    assert_eq!(cells(&game), vec![(0, 5), (9, 5), (8, 5)]);
    assert_eq!(game.status(), GameStatus::Running);
}

#[test]
fn snake_wraps_around_the_other_edges() {
    let mut up = started(10, 10);
    up.snake_input(Some(Direction::Up));
    for _ in 0..5 {
        up.step();
    }
    assert_eq!(up.head(), Some(at(5, 0)));

    let mut down = started(10, 10);
    down.snake_input(Some(Direction::Down));
    for _ in 0..6 {
        down.step();
    }
    assert_eq!(down.head(), Some(at(5, 9)));

    let mut left = started(10, 10);
    left.snake_input(Some(Direction::Up));
    left.step();
    left.snake_input(Some(Direction::Left));
    for _ in 0..6 {
        left.step();
    }
    assert_eq!(left.head(), Some(at(9, 6)));
}

#[test]
fn step_without_segments_does_nothing() {
    let mut game = Simulation::new(GridSize::default()).unwrap();
    assert!(!game.step());
    assert!(!game.snake_move(PERIOD));
    assert_eq!(game.segment_count(), 0);
    assert_eq!(game.status(), GameStatus::Running);
    assert_eq!(game.snake_state().timer.elapsed_nanos, 0);
}

#[test]
fn no_reversal() {
    let mut game = started(10, 10);
    assert!(!game.snake_input(Some(Direction::Left)));
    assert_eq!(game.direction(), Direction::Right);
    assert!(!game.snake_state().force_step);

    let mut up = started(10, 10);
    assert!(up.snake_input(Some(Direction::Up)));
    assert_eq!(up.direction(), Direction::Up);
    assert!(up.snake_state().force_step);
    assert!(!up.snake_input(Some(Direction::Down)));
    assert_eq!(up.direction(), Direction::Up);

    let mut down = started(10, 10);
    assert!(down.snake_input(Some(Direction::Down)));
    assert_eq!(down.direction(), Direction::Down);
    assert!(down.snake_state().force_step);
    assert!(!down.snake_input(Some(Direction::Up)));
    assert!(down.snake_input(Some(Direction::Left)));
    assert!(!down.snake_input(Some(Direction::Right)));
    assert_eq!(down.direction(), Direction::Left);
}

#[test]
fn same_direction_and_no_intent_are_ignored() {
    let mut game = started(10, 10);
    assert!(!game.snake_input(Some(Direction::Right)));
    assert!(!game.snake_input(None));
    assert_eq!(game.direction(), Direction::Right);
    assert!(!game.snake_state().force_step);
}

#[test]
fn timer_gates_the_movement() {
    let mut game = started(10, 10);
    assert!(!game.snake_move(100_000_000));
    assert_eq!(cells(&game), vec![(5, 5), (4, 5), (3, 5)]);
    assert_eq!(game.snake_state().timer.elapsed_nanos, 100_000_000);
    assert!(game.snake_move(100_000_000));
    assert_eq!(cells(&game), vec![(6, 5), (5, 5), (4, 5)]);
    assert_eq!(game.snake_state().timer.elapsed_nanos, 50_000_000);
    assert!(!game.snake_move(99_999_999));
    assert!(game.snake_move(1));
    assert_eq!(cells(&game), vec![(7, 5), (6, 5), (5, 5)]);
    assert_eq!(game.snake_state().timer.elapsed_nanos, 0);
}

#[test]
fn change_of_heading_forces_a_step_and_resets_the_timer() {
    let mut game = started(10, 10);
    assert!(!game.snake_move(140_000_000));
    assert!(game.snake_input(Some(Direction::Up)));
    assert!(game.snake_move(5_000_000));
    assert_eq!(cells(&game), vec![(5, 6), (5, 5), (4, 5)]);
    assert_eq!(
        game.snake_state(),
        SnakeState {
            direction: Direction::Up,
            timer: StepTimer { period_nanos: PERIOD, elapsed_nanos: 0 },
            force_step: false,
        }
    );
    // The timer starts over: no second step right after the forced one.
    assert!(!game.snake_move(10_000_000));
    assert!(!game.snake_move(139_999_999));
    assert!(game.snake_move(1));
    assert_eq!(cells(&game), vec![(5, 7), (5, 6), (5, 5)]);
}

#[test]
fn forced_step_that_coincides_with_the_timer_steps_once() {
    let mut game = started(10, 10);
    game.snake_input(Some(Direction::Down));
    assert!(game.snake_move(PERIOD));
    assert_eq!(cells(&game), vec![(5, 4), (5, 5), (4, 5)]);
    assert_eq!(game.snake_state().timer.elapsed_nanos, 0);
}

#[test]
fn food_waits_for_the_snake() {
    let mut game = Simulation::new(GridSize::default()).unwrap();
    let mut rand = seeded(1);
    game.emit_game_start();
    assert_eq!(game.initialize_food(&mut rand), None);
    game.initialize_food_with(Some(at(0, 0)));
    assert_eq!(game.food(), None);
    assert_eq!(game.start_signal(), StartSignal { for_snake: true, for_food: true });
    game.initialize_snake();
    game.initialize_food_with(Some(at(0, 0)));
    assert_eq!(game.food(), Some(Food { position: at(0, 0) }));
    assert_eq!(game.start_signal(), StartSignal { for_snake: false, for_food: false });
}

#[test]
fn food_is_not_placed_without_a_signal() {
    let mut game = started(10, 10);
    game.initialize_food_with(Some(at(0, 0)));
    game.initialize_food_with(Some(at(1, 1)));
    assert_eq!(game.food(), Some(Food { position: at(0, 0) }));
    let mut rand = seeded(2);
    assert_eq!(game.initialize_food(&mut rand), None);
    assert_eq!(game.food(), Some(Food { position: at(0, 0) }));
}

#[test]
fn food_is_not_placed_on_the_snake_or_off_the_board() {
    let mut game = started(10, 10);
    for cell in [at(5, 5), at(4, 5), at(3, 5), at(10, 0), at(0, 10)] {
        game.initialize_food_with(Some(cell));
        assert_eq!(game.food(), None);
        assert_eq!(game.start_signal(), StartSignal { for_snake: false, for_food: true });
    }
    game.initialize_food_with(None);
    assert_eq!(game.food(), None);
    game.initialize_food_with(Some(at(2, 5)));
    assert_eq!(food_cell(&game), Some((2, 5)));
}

#[test]
fn drawn_food_lies_on_a_free_cell() {
    for seed in 0..50 {
        let mut game = started(4, 2);
        let mut rand = seeded(seed);
        let mut drawn = game.initialize_food(&mut rand);
        while drawn.is_none() {
            drawn = game.initialize_food(&mut rand);
        }
        let cell = drawn.unwrap();
        assert!(game.grid().contains(cell));
        assert!(game.is_free_cell(cell));
        assert_eq!(game.food(), Some(Food { position: cell }));
        assert!(!game.start_signal().for_food);
    }
}

#[test]
fn random_cells_lie_on_the_board() {
    let grid = GridSize::new(3, 2, 1).unwrap();
    let mut rand = seeded(7);
    let mut seen = [[false; 2]; 3];
    for _ in 0..200 {
        let cell = rand.random_cell(&grid);
        assert!(grid.contains(cell));
        seen[cell.x as usize][cell.y as usize] = true;
    }
    assert!(seen.iter().all(|column| column.iter().all(|hit| *hit)));
}

#[test]
fn draw_on_an_empty_board_always_finds_a_cell() {
    let game = Simulation::new(GridSize::new(1, 1, 1).unwrap()).unwrap();
    let mut rand = seeded(3);
    assert_eq!(game.draw_free_cell(&mut rand), Some(at(0, 0)));
}

#[test]
fn draw_on_a_full_board_finds_nothing() {
    let game = started(3, 1);
    let mut rand = seeded(4);
    assert_eq!(game.draw_free_cell(&mut rand), None);
}

#[test]
fn food_initializer_keeps_waiting_on_a_full_board() {
    let mut game = started(3, 1);
    let mut rand = seeded(5);
    assert_eq!(game.initialize_food(&mut rand), None);
    assert_eq!(game.food(), None);
    assert!(game.start_signal().for_food);
}

#[test]
fn growth_queuing() {
    let mut game = started(10, 10);
    game.initialize_food_with(Some(at(6, 5)));
    game.step();
    assert_eq!(game.growth(), Growth { pending: 0 });
    game.resolve_food_collision(Some(at(0, 0)));
    assert_eq!(game.growth(), Growth { pending: 1 });
    assert_eq!(game.segment_count(), 3);
    assert_eq!(food_cell(&game), Some((0, 0)));
    game.step();
    assert_eq!(game.segment_count(), 4);
    assert_eq!(game.growth(), Growth { pending: 0 });
    assert_eq!(cells(&game), vec![(7, 5), (6, 5), (5, 5), (4, 5)]);
    game.step();
    assert_eq!(game.segment_count(), 4);
    assert_eq!(cells(&game), vec![(8, 5), (7, 5), (6, 5), (5, 5)]);
}

#[test]
fn no_growth_without_overlap() {
    let mut game = started(10, 10);
    game.initialize_food_with(Some(at(7, 5)));
    game.step();
    game.resolve_food_collision(Some(at(0, 0)));
    let mut rand = seeded(6);
    assert_eq!(game.handle_food_collision(&mut rand), None);
    assert_eq!(game.growth(), Growth { pending: 0 });
    assert_eq!(food_cell(&game), Some((7, 5)));
}

#[test]
fn food_engine_without_food_or_snake_does_nothing() {
    let mut rand = seeded(8);
    let mut no_food = started(10, 10);
    assert_eq!(no_food.handle_food_collision(&mut rand), None);
    no_food.resolve_food_collision(Some(at(0, 0)));
    assert_eq!(no_food.food(), None);
    assert_eq!(no_food.growth(), Growth { pending: 0 });

    let mut no_snake = Simulation::new(GridSize::default()).unwrap();
    assert_eq!(no_snake.handle_food_collision(&mut rand), None);
    assert_eq!(no_snake.growth(), Growth { pending: 0 });
}

#[test]
fn eaten_food_keeps_its_cell_without_a_free_draw() {
    let mut game = started(10, 10);
    game.initialize_food_with(Some(at(6, 5)));
    game.step();
    game.resolve_food_collision(None);
    assert_eq!(food_cell(&game), Some((6, 5)));
    assert_eq!(game.growth(), Growth { pending: 1 });
    // Still on the food: the next pass queues another growth.
    game.resolve_food_collision(Some(at(5, 5)));
    assert_eq!(food_cell(&game), Some((6, 5)));
    assert_eq!(game.growth(), Growth { pending: 2 });
    game.resolve_food_collision(Some(at(10, 10)));
    assert_eq!(food_cell(&game), Some((6, 5)));
    assert_eq!(game.growth(), Growth { pending: 3 });
}

#[test]
fn eaten_food_moves_to_a_free_cell() {
    for seed in 0..50 {
        let mut game = started(10, 10);
        let mut rand = seeded(seed);
        game.initialize_food_with(Some(at(6, 5)));
        game.step();
        let drawn = game.handle_food_collision(&mut rand);
        let food = game.food().unwrap().position;
        match drawn {
            Some(cell) => assert_eq!(food, cell),
            None => assert_eq!(food, at(6, 5)),
        }
        assert!(game.grid().contains(food));
        assert!(drawn.is_none() || ![(6, 5), (5, 5), (4, 5)].contains(&(food.x, food.y)));
        assert_eq!(game.growth(), Growth { pending: 1 });
        assert_eq!(cells(&game), vec![(6, 5), (5, 5), (4, 5)]);
    }
}

#[test]
fn food_stays_on_a_saturated_board() {
    let mut game = started(4, 1);
    let mut rand = seeded(9);
    game.initialize_food_with(Some(at(3, 0)));
    game.step();
    game.resolve_food_collision(Some(at(0, 0)));
    game.step();
    assert_eq!(cells(&game), vec![(0, 0), (3, 0), (2, 0), (1, 0)]);
    assert_eq!(game.status(), GameStatus::Running);
    assert_eq!(game.handle_food_collision(&mut rand), None);
    assert_eq!(food_cell(&game), Some((0, 0)));
    assert_eq!(game.growth(), Growth { pending: 1 });
}

#[test]
fn head_running_into_the_new_tail_segment_ends_the_game() {
    let mut game = started(4, 1);
    game.initialize_food_with(Some(at(3, 0)));
    game.step();
    game.resolve_food_collision(Some(at(0, 0)));
    game.step();
    game.resolve_food_collision(None);
    assert_eq!(game.growth(), Growth { pending: 1 });
    assert!(game.step());
    assert_eq!(cells(&game), vec![(1, 0), (0, 0), (3, 0), (2, 0), (1, 0)]);
    assert_eq!(game.status(), GameStatus::GameOver);
    assert_eq!(game.growth(), Growth { pending: 0 });
}

#[test]
fn head_following_its_tail_without_growth_goes_on() {
    let mut game = started(3, 1);
    for _ in 0..7 {
        assert!(!game.step());
    }
    assert_eq!(game.status(), GameStatus::Running);
    assert_eq!(cells(&game), vec![(2, 0), (1, 0), (0, 0)]);
}

#[test]
fn self_collision() {
    let mut game = long_snake();
    game.snake_input(Some(Direction::Up));
    assert!(!game.step());
    game.snake_input(Some(Direction::Left));
    assert!(!game.step());
    assert_eq!(game.status(), GameStatus::Running);
    game.snake_input(Some(Direction::Down));
    assert!(game.snake_move(0));
    assert_eq!(cells(&game), vec![(7, 5), (7, 6), (8, 6), (8, 5), (7, 5)]);
    assert_eq!(game.status(), GameStatus::GameOver);
}

#[test]
fn nothing_moves_after_game_over() {
    let mut game = long_snake();
    let mut rand = seeded(10);
    game.snake_input(Some(Direction::Up));
    game.step();
    game.snake_input(Some(Direction::Left));
    game.step();
    game.snake_input(Some(Direction::Down));
    game.step();
    assert_eq!(game.status(), GameStatus::GameOver);
    let frozen = cells(&game);
    let state = game.snake_state();
    let food = game.food();

    assert!(!game.snake_input(Some(Direction::Right)));
    assert!(!game.snake_input(Some(Direction::Left)));
    assert!(!game.step());
    assert!(!game.snake_move(PERIOD));
    assert!(!game.snake_move(10 * PERIOD));
    assert_eq!(game.handle_food_collision(&mut rand), None);
    game.resolve_food_collision(Some(at(9, 9)));
    game.initialize_food_with(Some(at(9, 9)));
    assert_eq!(game.initialize_food(&mut rand), None);
    let report = game.update(Some(Direction::Right), PERIOD, &mut rand);
    assert!(!report.stepped);
    assert!(report.game_over);
    assert_eq!(report.placed, None);
    assert_eq!(report.moved, None);

    assert_eq!(cells(&game), frozen);
    assert_eq!(game.snake_state(), state);
    assert_eq!(game.food(), food);
    assert_eq!(game.growth(), Growth { pending: 0 });
    assert_eq!(game.status(), GameStatus::GameOver);
}

#[test]
fn food_under_the_head_is_not_eaten_after_game_over() {
    let mut game = started(2, 1);
    game.initialize_snake();
    assert_eq!(cells(&game), vec![(1, 0), (0, 0), (1, 0)]);
    assert!(game.step());
    assert_eq!(game.status(), GameStatus::GameOver);
    game.resolve_food_collision(None);
    assert_eq!(game.growth(), Growth { pending: 0 });
}

#[test]
fn restart_resets_everything() {
    let mut game = long_snake();
    let mut rand = seeded(11);
    game.snake_input(Some(Direction::Up));
    game.step();
    game.snake_input(Some(Direction::Left));
    game.step();
    game.snake_input(Some(Direction::Down));
    game.step();
    game.resolve_food_collision(None);
    assert_eq!(game.status(), GameStatus::GameOver);

    game.restart();
    assert_eq!(game.status(), GameStatus::Running);
    assert_eq!(game.segment_count(), 0);
    assert_eq!(game.food(), None);
    assert_eq!(game.growth(), Growth { pending: 0 });
    assert_eq!(game.snake_state(), SnakeState::default());
    assert_eq!(game.start_signal(), StartSignal { for_snake: true, for_food: true });
    assert_eq!(game.grid(), GridSize { width: 10, height: 10, pixels: 24 });

    let report = game.update(None, 0, &mut rand);
    assert_eq!(game.segment_count(), 3);
    assert_eq!(cells(&game), vec![(5, 5), (4, 5), (3, 5)]);
    assert_eq!(game.growth(), Growth { pending: 0 });
    assert_eq!(game.direction(), Direction::Right);
    assert_eq!(game.status(), GameStatus::Running);
    assert!(game.food().is_some());
    assert_eq!(game.food().map(|food| food.position), report.placed);
    assert!(!report.stepped);
    assert!(!report.game_over);
}

#[test]
fn restart_of_a_running_game_and_twice() {
    let mut game = started(10, 10);
    game.snake_input(Some(Direction::Up));
    game.snake_move(20_000_000);
    game.restart();
    let once = (game.snake_state(), game.growth(), game.status(), game.start_signal(), game.segment_count());
    game.restart();
    let twice = (game.snake_state(), game.growth(), game.status(), game.start_signal(), game.segment_count());
    assert_eq!(once, twice);
    assert_eq!(game.snake_state(), SnakeState::default());
    assert_eq!(game.segment_count(), 0);
}

#[test]
fn eating_makes_the_snake_grow() {
    let mut game = started(10, 10);
    let mut rand = seeded(12);
    assert_eq!(game.head(), Some(at(5, 5)));
    assert_eq!(game.direction(), Direction::Right);
    game.initialize_food_with(Some(at(6, 5)));
    assert_eq!(food_cell(&game), Some((6, 5)));

    assert!(game.snake_move(PERIOD));
    assert_eq!(game.head(), Some(at(6, 5)));
    let mut drawn = game.handle_food_collision(&mut rand);
    assert_eq!(game.growth(), Growth { pending: 1 });
    while drawn.is_none() {
        // Every draw hit the snake: put the food down by hand.
        drawn = Some(at(0, 0));
        game.resolve_food_collision(drawn);
    }
    let food = game.food().unwrap().position;
    assert_ne!(food, at(6, 5));
    assert!(game.grid().contains(food));
    assert!(game.is_free_cell(food));

    assert!(game.snake_move(PERIOD));
    assert_eq!(game.segment_count(), 4);
    assert_eq!(cells(&game), vec![(7, 5), (6, 5), (5, 5), (4, 5)]);
}

#[test]
fn lap_around_a_small_board() {
    let mut game = started(3, 3);
    let start = game.head().unwrap();
    assert_eq!(start, at(1, 1));
    for tick in 1..=9u32 {
        assert!(game.snake_move(PERIOD));
        assert_eq!(game.status(), GameStatus::Running);
        assert_eq!(game.head(), Some(at((1 + tick) % 3, 1)));
    }
    assert_eq!(game.head(), Some(start));
    assert_eq!(game.segment_count(), 3);
    assert_eq!(cells(&game), vec![(1, 1), (0, 1), (2, 1)]);
}

#[test]
fn lap_upwards() {
    let mut game = started(3, 3);
    game.snake_input(Some(Direction::Up));
    for _ in 0..9 {
        assert!(!game.step());
    }
    assert_eq!(game.head(), Some(at(1, 1)));
    assert_eq!(game.status(), GameStatus::Running);
}

#[test]
fn first_frames_of_a_session() {
    let mut game = Simulation::new(GridSize::default()).unwrap();
    let mut rand = seeded(13);
    let idle = game.update(None, 16_000_000, &mut rand);
    assert!(!idle.stepped);
    assert_eq!(game.segment_count(), 0);
    assert_eq!(game.snake_state().timer.elapsed_nanos, 0);

    game.emit_game_start();
    let first = game.update(None, 16_000_000, &mut rand);
    assert_eq!(cells(&game), vec![(15, 15), (14, 15), (13, 15)]);
    assert!(first.placed.is_some());
    assert_eq!(game.food().map(|food| food.position), first.placed);
    assert!(!first.stepped);
    assert_eq!(first.moved, None);
    assert_eq!(game.snake_state().timer.elapsed_nanos, 16_000_000);
    assert_eq!(game.start_signal(), StartSignal { for_snake: false, for_food: false });

    let turn = game.update(Some(Direction::Up), 16_000_000, &mut rand);
    assert!(turn.stepped);
    assert_eq!(game.head(), Some(at(15, 16)));
    assert_eq!(game.snake_state().timer.elapsed_nanos, 0);
}

#[test]
fn frame_applies_the_intent_before_moving() {
    let mut game = started(10, 10);
    let mut rand = seeded(14);
    game.initialize_food_with(Some(at(0, 0)));
    let report = game.update(Some(Direction::Down), PERIOD, &mut rand);
    assert!(report.stepped);
    assert_eq!(cells(&game), vec![(5, 4), (5, 5), (4, 5)]);
}

#[test]
fn frame_eats_after_moving() {
    let mut game = started(10, 10);
    let mut rand = seeded(15);
    game.initialize_food_with(Some(at(6, 5)));
    let report = game.update(None, PERIOD, &mut rand);
    assert!(report.stepped);
    assert_eq!(game.head(), Some(at(6, 5)));
    assert_eq!(game.growth(), Growth { pending: 1 });
    assert_eq!(game.food().map(|food| food.position), Some(report.moved.unwrap_or(at(6, 5))));
    let next = game.update(None, PERIOD, &mut rand);
    assert!(next.stepped);
    assert_eq!(game.segment_count(), 4);
}
