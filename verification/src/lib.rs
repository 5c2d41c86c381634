//! Core logic of a terminal snake game: the snake's movement and growth
//! model, collision detection, fruit placement, input interpretation and
//! the per-tick state machine, all with verified contracts.

pub mod fruit;
pub mod game;
pub mod snake;
