//! Verified core of a study-time tracker: a session lifecycle (start, stop,
//! discard) over a store of session records, and aggregation of the recorded
//! time into rounded, goal-relative hour figures.

pub mod errors;
pub mod laws;
pub mod level;
pub mod rounding;
pub mod session;
pub mod stats;
pub mod store;
pub mod tracker;
