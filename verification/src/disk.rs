//! Disk readers: mounted partitions with their file systems, and per-drive
//! transfer counters in the two forms the platforms report them.

pub mod macos;
pub mod partitions;
pub mod windows;
