//! Sequential lifecycle orchestrator for managed host services.
//!
//! The library drives a declarative list of service targets to their desired
//! end states, one at a time: it decides each transition, waits for the
//! backend to report the new state, paces itself by observed system load,
//! and accumulates a durable progress document after every processed entry.

pub mod clock;
pub mod model;
pub mod orchestrator;
pub mod pacing;
pub mod sysquery;
pub mod textmatch;
pub mod waiter;
pub mod xml;

pub use model::{populate_test_timestamps, OrdemTargets, ServiceEntry};
pub use xml::{parse_ordem, write_progress_xml};

use vstd::prelude::*;

verus! {

/// Interval, in seconds, between state polls and load samples.
pub const POLL_INTERVAL_SECS: u64 = 1;

} // verus!
