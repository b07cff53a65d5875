//! A grid snake simulation: a head moving one cell per tick, a body chain
//! trailing behind it, deferred growth after eating, food placed on free cells,
//! and wall and self collisions that end the run.

pub mod grid;
pub mod clock;
pub mod chain;
pub mod food;
pub mod game;
