//! The welfare metric: registered metric specifications, per-epoch
//! snapshots of the welfare pillars, daily gate breaches and the settlement
//! score of a cohort.

pub mod math;
pub mod types;
pub mod pillars;
pub mod register;
pub mod state;
pub mod laws;
