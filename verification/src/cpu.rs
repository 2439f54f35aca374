//! CPU readers: logical and physical processor counts, frequencies,
//! kernel counters and accumulated times, each parsed from the system's
//! tabular files.

pub mod count;
pub mod freq;
pub mod physical;
pub mod stats;
pub mod times;
