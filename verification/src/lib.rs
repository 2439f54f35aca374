//! Cross-platform visibility into, and control over, operating-system
//! processes, together with the simple tabular readers (CPU counters and
//! frequencies, disk counters, host uptime) that surround that core.
//!
//! The process core reconciles three different OS process models behind one
//! contract and guards against process-identifier reuse: a pid alone never
//! identifies a process; a pid paired with its creation timestamp does.
//! All decisions are made here over plain values; the thin runtime layer
//! performs the system calls and file reads and hands their results in.

pub mod cpu;
pub mod disk;
pub mod error;
pub mod host;
pub mod parse;
pub mod process;
pub mod sensors;
pub mod units;
pub mod net;
pub mod virt;
