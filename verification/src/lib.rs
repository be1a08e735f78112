//! Simulation core of a side-scrolling platformer.
//!
//! The core owns the fixed-timestep loop, the set of held keys, the geometry
//! of sprite sheets, and the playable character: a state machine with its
//! physics and its collisions. Everything here works on whole numbers of
//! pixels and ticks and is total: no step of the simulation can fail.
//! Drawing, loading and the host's callbacks stay outside.

pub mod geometry;
pub mod physics;
pub mod machine;
pub mod laws;
pub mod naming;
pub mod sheet;
pub mod input;
pub mod game_loop;
pub mod character;
pub mod game;
