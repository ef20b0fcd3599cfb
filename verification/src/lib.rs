//! A recurring-reminder countdown engine.
//!
//! The engine tracks a set of interval-based tasks, each of which fires once
//! its configured interval has elapsed, and compensates elapsed time across
//! several independently toggled suspension sources (manual pause, system
//! lock, an overlay-lock mode) as well as user idleness.  All state
//! transitions are total functions over plain values; the caller supplies a
//! monotonic timestamp in seconds to every time-dependent operation.

pub mod engine;
pub mod laws;
pub mod lock_url;
pub mod model;
pub mod task;
