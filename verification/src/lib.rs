//! Simulation core of an arcade shooter: a player ship dodges and destroys
//! falling asteroids with limited, auto-reloading ammunition, tracked by
//! lives and score until the run ends.
//!
//! All positions are integer playfield units with y increasing upward; all
//! times are milliseconds read from a monotonic clock that the caller
//! injects, so the core is deterministic apart from the random draws used
//! when asteroids (re)spawn.

pub mod asteroids;
pub mod collision;
pub mod config;
pub mod geometry;
pub mod player;
pub mod playfield;
mod rng;
pub mod world;
