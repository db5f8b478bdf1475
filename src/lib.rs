//! Randomised offsets ("jitter") for wait durations and points in time.
//!
//! Durations and instants are held as whole nanoseconds, so that every
//! bound on a sampled offset is stated and proved exactly.
mod jitter;
mod time;

pub use time::{saturate, scale, Duration, Instant, FRACTION_SCALE, MAX_NANOS, NANOS_PER_SEC};
pub use jitter::{lemma_same_bounds_sample_alike, Jitter};
