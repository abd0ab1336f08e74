//! Competing ant colonies ("dynasties") foraging on a shared square grid.
//!
//! The grid is the only store of ant state: an ant is a cell variant. One
//! step of the world scans every cell once in row-major order, applying the
//! per-cell lifecycle rules and collecting the ants that are due to move,
//! then resolves those moves one by one, asking each ant's dynasty policy
//! for a direction.
pub mod census;
pub mod dice;
pub mod dynasty;
pub mod environment;
pub mod laws;
pub mod rules;
pub mod trace;
