//! Simulation engine of a snake game on a toroidal grid.
//!
//! The engine is a tick-driven state machine: a segmented snake advances one
//! cell per tick, wraps at the board's edges, grows after eating and ends the
//! game when its head runs into its own body. Rendering, input polling and the
//! frame loop live outside; they hand the engine plain values and read its
//! state back.

pub mod components;
pub mod entities;
pub mod grid;
pub mod laps;
pub mod laws;
pub mod random;
pub mod simulation;
pub mod state;
pub mod timer;

pub use components::{Food, GridPosition, SnakeSegment};
pub use entities::{Entities, EntityStore};
pub use grid::{Direction, GridSize};
pub use random::RandomSource;
pub use simulation::{FrameReport, Simulation};
pub use state::{GameStatus, Growth, SimState, SnakeState, StartSignal};
pub use timer::StepTimer;
