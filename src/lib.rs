//! A toroidal two-state cellular automaton whose transitions are an ordered
//! list of rules, each guarded by a condition over the live-neighbour count.
pub mod cell;
pub mod rule;
pub mod grid;
pub mod universe;
pub mod laws;
