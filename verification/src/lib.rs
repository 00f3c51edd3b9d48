//! Game-state core of a grid-based snake game.
//!
//! The library owns the simulation: the snake's body representation and
//! movement rules, self- and wall-collision detection, the random apple
//! respawn that avoids occupied cells, and the match state machine.
//! Rendering and input belong to the surrounding program.

pub mod apple;
pub mod game;
pub mod point;
mod rng;
pub mod snake;
