//! Decision logic of a small keyboard-driven 2D scene: which keys steer the
//! player sprite, and the motions a frame applies for the keys that are held.
//! The engine that draws, moves and collides the objects is driven from the
//! application around this library.

pub mod collision;
pub mod frame;
pub mod input;
pub mod movement;
