//! Process status: the closed set of states, and its derivations from each
//! platform's native encoding.

use vstd::prelude::*;

use crate::error::Error;

verus! {

/// The states a process can be reported in.  The exact members available
/// differ per platform; the snapshot/handle platform approximates status
/// with a suspended/running test only.
#[derive(Clone, Copy, Debug, PartialEq, Eq, Structural)]
pub enum Status {
    Running,
    Sleeping,
    /// Uninterruptible wait, usually for disk.
    Waiting,
    Stopped,
    /// Stopped by a tracer.
    Tracing,
    Zombie,
    Dead,
    WakeKill,
    Waking,
    Parked,
    Idle,
}

/// The file-table platform's one-letter state codes.
pub open spec fn status_of_state_char(b: u8) -> Option<Status> {
    if b == 'R' as u8 {
        Some(Status::Running)
    } else if b == 'S' as u8 {
        Some(Status::Sleeping)
    } else if b == 'D' as u8 {
        Some(Status::Waiting)
    } else if b == 'T' as u8 {
        Some(Status::Stopped)
    } else if b == 't' as u8 {
        Some(Status::Tracing)
    } else if b == 'Z' as u8 {
        Some(Status::Zombie)
    } else if b == 'X' as u8 || b == 'x' as u8 {
        Some(Status::Dead)
    } else if b == 'K' as u8 {
        Some(Status::WakeKill)
    } else if b == 'W' as u8 {
        Some(Status::Waking)
    } else if b == 'P' as u8 {
        Some(Status::Parked)
    } else if b == 'I' as u8 {
        Some(Status::Idle)
    } else {
        None
    }
}

/// Reads the one-letter state code of the file-table platform.
pub fn status_from_state_char(b: u8) -> (r: Result<Status, Error>)
    ensures
        match r {
            Ok(s) => status_of_state_char(b) == Some(s),
            Err(e) => status_of_state_char(b) is None && e == Error::InvalidData,
        },
{
    if b == 'R' as u8 {
        Ok(Status::Running)
    } else if b == 'S' as u8 {
        Ok(Status::Sleeping)
    } else if b == 'D' as u8 {
        Ok(Status::Waiting)
    } else if b == 'T' as u8 {
        Ok(Status::Stopped)
    } else if b == 't' as u8 {
        Ok(Status::Tracing)
    } else if b == 'Z' as u8 {
        Ok(Status::Zombie)
    } else if b == 'X' as u8 || b == 'x' as u8 {
        Ok(Status::Dead)
    } else if b == 'K' as u8 {
        Ok(Status::WakeKill)
    } else if b == 'W' as u8 {
        Ok(Status::Waking)
    } else if b == 'P' as u8 {
        Ok(Status::Parked)
    } else if b == 'I' as u8 {
        Ok(Status::Idle)
    } else {
        Err(Error::InvalidData)
    }
}

/// The kernel-table platform's numeric process states.
pub open spec fn status_of_kernel_state(v: i32) -> Option<Status> {
    if v == 1 {
        Some(Status::Idle)
    } else if v == 2 {
        Some(Status::Running)
    } else if v == 3 {
        Some(Status::Sleeping)
    } else if v == 4 {
        Some(Status::Stopped)
    } else if v == 5 {
        Some(Status::Zombie)
    } else {
        None
    }
}

/// Reads the kernel-table platform's numeric state field.
pub fn status_from_kernel_state(v: i32) -> (r: Result<Status, Error>)
    ensures
        match r {
            Ok(s) => status_of_kernel_state(v) == Some(s),
            Err(e) => status_of_kernel_state(v) is None && e == Error::InvalidData,
        },
{
    if v == 1 {
        Ok(Status::Idle)
    } else if v == 2 {
        Ok(Status::Running)
    } else if v == 3 {
        Ok(Status::Sleeping)
    } else if v == 4 {
        Ok(Status::Stopped)
    } else if v == 5 {
        Ok(Status::Zombie)
    } else {
        Err(Error::InvalidData)
    }
}

/// The snapshot/handle platform approximates status by a suspended test.
pub fn status_from_suspended(suspended: bool) -> (r: Status)
    ensures
        r == (if suspended {
            Status::Stopped
        } else {
            Status::Running
        }),
{
    if suspended {
        Status::Stopped
    } else {
        Status::Running
    }
}

} // verus!
