//! Kronos: a productivity timer core.
//!
//! Verified model of a countdown/count-up timer engine, a task store with
//! per-task timers, keyboard-driven editing modes, completion statistics,
//! an edge-triggered notification dispatcher, and a line-protocol command
//! interface.  Terminal rendering, file persistence and socket handling are
//! unverified collaborators that drive this library from the outside.

pub mod app;
pub mod clock;
pub mod config;
pub mod ipc;
pub mod mode;
pub mod persist;
pub mod stats;
pub mod task;
pub mod textutil;
pub mod timer;

use vstd::prelude::*;

verus! {

/// Largest target a timer accepts, in minutes: sixty times this fits the
/// clock range below.
pub const MAX_TARGET_MINUTES: i64 = 66_666_666_666;

/// Upper bound, in seconds, on clock readings the library accepts.
/// Roughly 126,000 years past the epoch; keeps all time arithmetic in `i64`.
pub const MAX_CLOCK_SECONDS: i64 = 4_000_000_000_000;

/// Upper bound, in seconds, on the total-time-worked statistic.
pub const MAX_WORKED_SECONDS: i64 = 4_000_000_000_000_000;

/// Bound on the civil day numbers the streak logic accepts.
pub const MAX_DAY_NUMBER: i64 = 100_000_000;

} // verus!
