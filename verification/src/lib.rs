//! Telemetry core of a small desktop launcher shell.
//!
//! On every timer tick the launcher reads the local wall clock and the
//! host's resource counters, turns them into display-ready values
//! (12-hour time, a "Weekday, Mon DD" date label, usage percentages),
//! and writes them into a reactive UI state model owned by a separate
//! rendering layer.  This crate holds that sampling and derivation
//! logic, verified; the timer and the rendering layer live outside it.

pub mod clock;
pub mod probe;
pub mod scheduler;
