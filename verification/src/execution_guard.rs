//! The execution guard: the queue of decided proposals, the checks made at
//! dispatch time, the batch dispatch with upgrade authorization, the record
//! ring, and the two-phase runtime upgrade.

pub mod types;
pub mod spec;
pub mod checks;
pub mod guard;
pub mod laws;
