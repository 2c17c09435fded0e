//! A lightweight in-process progress reporter.
//!
//! Callers increment a counter as work items complete; the tracker decides,
//! from wall-clock time, when a human-readable status line is due, and hands
//! that line back to the caller for routing to whatever logging sink is
//! configured. Numbers in the line are grouped into chunks of three digits
//! with alternating visual emphasis for readability.

pub mod platform;
pub mod pretty;
pub mod tracker;

pub use pretty::{pretty_fix2, pretty_u64, Fix2};
pub use tracker::{ProgressLogger, ProgressLoggerBuilder};
