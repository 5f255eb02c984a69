//! Simulation core of a grid-based snake game for one to three players.
//!
//! The crate holds the rules of the game and nothing else: the walkable
//! masks, the reveal of a stage layout, the movement of the snakes and of
//! their trailing segments, the choice of snack cells and the game-mode
//! state machine. Time is counted in nanoseconds and speed in hundredths of
//! the default snake speed, so that every rule is exact integer arithmetic.

pub mod coordinate;
pub mod mask;
pub mod ui;
pub mod state;
pub mod stage;
pub mod snacks;
pub mod snake;
pub mod movement;
pub mod segments;
pub mod stage_update;
pub mod laws;
pub mod frame;
pub mod text;
