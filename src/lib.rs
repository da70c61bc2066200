//! Staged, capacity-limited sale of a numbered collection: who may claim a
//! unit, at what price, and how each paid claim is counted exactly once.

pub mod state;
pub mod config;
pub mod priority;
pub mod claim;
pub mod records;
