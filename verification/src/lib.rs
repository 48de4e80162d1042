//! Verified core of a host telemetry monitor.
//!
//! The library holds the sampling and aggregation engine: fixed-capacity
//! rolling history buffers, the periodic process-ranking pass, per-volume
//! disk usage aggregation, the memoizing icon cache, and the cadence-gated
//! facade that the presentation layer polls once per redraw. Reading the
//! metrics from the operating system and drawing the widgets are left to
//! the surrounding application, which hands plain values in and out.

use vstd::prelude::*;

pub mod disks;
pub mod facade;
pub mod icons;
pub mod metrics;
pub mod ranker;
pub mod ring;
pub mod snapshot;

verus! {

/// Number of samples every history buffer keeps: the last minute at one
/// sample per second.
pub const HISTORY_LEN: usize = 60;

} // verus!
