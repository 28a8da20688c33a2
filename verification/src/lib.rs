//! Simulation core of a two-paddle ball game on integer coordinates.

pub mod config;
pub mod geometry;
pub mod laws;
pub mod motion;
pub mod numeric;
pub mod opponent;
pub mod player;
pub mod resolver;
pub mod serve;
pub mod simulation;
pub mod timer;
pub mod world;
