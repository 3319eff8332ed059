//! The rules of a terminal snake game: a snake that moves on a grid whose
//! edges wrap, turns without reversing, grows by eating food and speeds up
//! as it scores, with a greedy autopilot that can steer for the player.

pub mod direction;
pub mod food;
pub mod game;
pub mod input;
pub mod render;
pub mod snake;
