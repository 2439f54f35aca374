//! The cheap existence check: whether any process currently occupies a pid,
//! decided from the outcome of a zero-signal probe.

use vstd::prelude::*;

use crate::process::errors::{EACCES, EPERM, ESRCH};
use crate::process::Pid;

verus! {

/// Whether `pid` exists, given the error code (if any) that sending the
/// null signal to it returned.  A clean send means the process exists; a
/// permission error also means it exists (it is merely someone else's);
/// only "no such process" means it is gone.  The probe for pid 0 is not
/// meaningful, so pid 0 is reported present.
pub open spec fn pid_exists_spec(pid: Pid, probe_errno: Option<i32>) -> bool {
    if pid == 0 {
        true
    } else {
        match probe_errno {
            None => true,
            Some(e) => e == EPERM || e == EACCES,
        }
    }
}

/// Decides existence from a null-signal probe's outcome.
pub fn pid_exists(pid: Pid, probe_errno: Option<i32>) -> (r: bool)
    ensures
        r == pid_exists_spec(pid, probe_errno),
{
    if pid == 0 {
        return true;
    }
    match probe_errno {
        None => true,
        Some(e) => {
            if e == ESRCH {
                false
            } else {
                e == EPERM || e == EACCES
            }
        },
    }
}

} // verus!
