//! A per-case program judge: runs a user program once per input case under
//! wall-clock and resident-memory limits and produces a verdict vector.
//!
//! This crate holds the judge's logic: verdict resolution, the observer race,
//! peak-memory accounting, configuration checks, path construction and the
//! result rendering. The process spawning, signalling and file I/O around it
//! live outside the library and feed it plain values.

pub mod cases;
pub mod clock;
pub mod command;
pub mod config;
pub mod decimal;
pub mod driver;
pub mod observer;
pub mod paths;
pub mod probe;
pub mod record;
pub mod render;
pub mod supervisor;
pub mod verdict;
