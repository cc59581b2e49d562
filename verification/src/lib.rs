//! Simulation core of a fixed-viewport arcade shooter.
//!
//! The library owns the game logic: the entity store, per-tick motion,
//! probabilistic spawning, axis-aligned collision resolution, the score
//! counter and the Start / Playing / Result state machine.  Rendering,
//! raw input polling and windowing are outside collaborators: a driver
//! reads the keys, calls [`game::Game::tick`] once per fixed step and
//! draws whatever the store holds.
//!
//! Coordinates are kept in thousandths of a world unit, so that the
//! constant-velocity motion rules (units per second times a millisecond
//! tick) stay exact integer arithmetic.

pub mod geom;
pub mod entity;
pub mod store;
pub mod input;
pub mod motion;
pub mod collision;
pub mod spawn;
pub mod menu;
pub mod score;
pub mod game;
mod rng;
