//! The process core: stable process identities, the error taxonomy, signal
//! and status models, the process-table record reader, and the handle whose
//! every destructive operation revalidates identity before acting.
//!
//! A pid is reused by the kernel after a process exits, so a pid alone never
//! names a process.  The core therefore pairs every pid with the creation
//! timestamp observed for it, and every operation that could affect OS state
//! re-derives the current occupant's identity and compares it with the
//! stored one before acting.  The system calls and file reads themselves are
//! performed by a thin unverified runtime, which hands their plain results
//! to the decision functions here.

use vstd::prelude::*;

pub mod command;
pub mod errors;
pub mod handle;
pub mod identity;
pub mod pids;
pub mod record;
pub mod signal;
pub mod status;
pub mod windows;

verus! {

/// Process identifier.  Platform-native width; signed, as on the POSIX
/// platforms.  Callers must not assume sign or width portability.
pub type Pid = i32;

} // verus!
