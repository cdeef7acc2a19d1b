//! Polling input driver for a small GPIO keypad (3-key mini or 12-key full).
//!
//! The crate maps logical key indices to physical GPIO line numbers, reads
//! each line's level through a pluggable backend, detects press/release
//! edges, and invokes a per-key callback exactly once per transition.

pub mod backend;
pub mod cdev;
pub mod errors;
pub mod handlers;
pub mod keypad;
pub mod pins;
