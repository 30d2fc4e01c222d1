//! A deterministic two-player cell-capture breakout simulation with rollback
//! synchronisation, in fixed-point integer arithmetic.
pub mod args;
pub mod collision;
pub mod components;
pub mod field;
pub mod geometry;
pub mod input;
pub mod item;
pub mod physics;
pub mod respawn;
pub mod session;
pub mod setup;
pub mod speed;
pub mod timer;
pub mod trig;
pub mod world;
