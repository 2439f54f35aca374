//! The error taxonomy every caller sees, and the classification rules that
//! map raw OS error codes into it at the backend boundary.  Callers above
//! the backend never handle raw platform codes except through the opaque
//! `Other` variant.

use vstd::prelude::*;

use crate::process::Pid;

verus! {

/// Every backend failure, classified into a small set of caller-meaningful
/// outcomes.
#[derive(Clone, Copy, Debug, PartialEq, Eq, Structural)]
pub enum ProcessError {
    /// No process currently occupies the pid, or the occupant is not the
    /// process the caller's identity names.
    NoSuchProcess(Pid),
    /// The process exists but the caller lacks the privilege to query or
    /// act on it.
    AccessDenied(Pid),
    /// The process has terminated but has not been reaped: it still
    /// occupies a process-table entry yet denies attribute queries.
    ZombieProcess(Pid),
    /// An opaque platform failure, carrying the raw OS error code.
    Other(i32),
}

pub type ProcessResult<T> = Result<T, ProcessError>;

/// Raw OS error code: no process found.
pub const ESRCH: i32 = 3;

/// Raw OS error code: operation not permitted.
pub const EPERM: i32 = 1;

/// Raw OS error code: access denied.
pub const EACCES: i32 = 13;

/// How an attribute-query failure is classified, given whether the pid is
/// still present in the process table.  A "no such process" code from the
/// query together with a positive existence check means the entry is a
/// zombie: present but unqueryable.
pub open spec fn classify_query_failure_spec(errno: i32, pid: Pid, exists: bool) -> ProcessError {
    if errno == ESRCH {
        if exists {
            ProcessError::ZombieProcess(pid)
        } else {
            ProcessError::NoSuchProcess(pid)
        }
    } else if errno == EPERM || errno == EACCES {
        ProcessError::AccessDenied(pid)
    } else {
        ProcessError::Other(errno)
    }
}

/// Classifies a failed attribute query against `pid`.  `exists` is the
/// result of the cheap existence check, consulted so that "present but
/// unqueryable" (zombie) is told apart from "gone".
pub fn classify_query_failure(errno: i32, pid: Pid, exists: bool) -> (e: ProcessError)
    ensures
        e == classify_query_failure_spec(errno, pid, exists),
{
    if errno == ESRCH {
        if exists {
            ProcessError::ZombieProcess(pid)
        } else {
            ProcessError::NoSuchProcess(pid)
        }
    } else if errno == EPERM || errno == EACCES {
        ProcessError::AccessDenied(pid)
    } else {
        ProcessError::Other(errno)
    }
}

/// How a failed signal send is classified.
pub open spec fn classify_send_failure_spec(errno: i32, pid: Pid) -> ProcessError {
    if errno == ESRCH {
        ProcessError::NoSuchProcess(pid)
    } else if errno == EPERM || errno == EACCES {
        ProcessError::AccessDenied(pid)
    } else {
        ProcessError::Other(errno)
    }
}

/// Classifies the error code a signal send returned.
pub fn classify_send_failure(errno: i32, pid: Pid) -> (e: ProcessError)
    ensures
        e == classify_send_failure_spec(errno, pid),
{
    if errno == ESRCH {
        ProcessError::NoSuchProcess(pid)
    } else if errno == EPERM || errno == EACCES {
        ProcessError::AccessDenied(pid)
    } else {
        ProcessError::Other(errno)
    }
}

} // verus!
