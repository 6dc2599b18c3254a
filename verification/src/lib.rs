//! PivotRadar: the decision core of a single-instance, multi-asset signal engine.
//!
//! The library holds the parts of the engine that are exact: detector identities,
//! broker-local time, sessions and kill zones, signal identifiers, the bookkeeping of
//! pending signals, latches, and the comparison-only structure analysis.

mod texto;

pub mod cache;
pub mod calibration;
pub mod claves;
pub mod gauges;
pub mod hypothesis;
pub mod indicators;
pub mod latch;
pub mod pending;
pub mod structure;
pub mod types;
