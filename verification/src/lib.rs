//! Verified core of the Bleavit futarchy runtime: the execution guard, the
//! welfare metric pallet, the runtime call filter and configuration, the
//! runtime view assembly rules, storage migration decisions and the XCM call
//! classification.

pub mod primitives;
pub mod origins;
pub mod seq_util;
pub mod execution_guard;
pub mod welfare;
pub mod runtime;
pub mod migrations;
pub mod xcm_filter;
pub mod views;
