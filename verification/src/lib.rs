//! Deterministic physics core of a Line Rider-style simulator.
//!
//! Every coordinate is an IEEE-754 binary64 value carried as its raw bit
//! pattern (a `u64`), so equality is bit-exact and replays are reproducible.

pub mod codec;
pub mod fbits;
pub mod fops;
pub mod grid;
pub mod line;
pub mod physics;
pub mod rider;
pub mod store;
pub mod track;
pub mod vector;
