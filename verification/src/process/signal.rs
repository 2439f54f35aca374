//! The closed set of control signals a handle can send, and its mapping
//! onto each platform's nearest native primitive.

use vstd::prelude::*;

verus! {

/// The four control signals the core exposes.
#[derive(Clone, Copy, Debug, PartialEq, Eq, Structural)]
pub enum Signal {
    /// Pause the process (job control).
    Stop,
    /// Resume a paused process.
    Continue,
    /// Ask the process to exit.
    Terminate,
    /// End the process without the chance to clean up.
    Kill,
}

/// The native signal number sent on the POSIX platforms:
/// Stop is SIGSTOP, Continue is SIGCONT, Terminate is SIGTERM,
/// Kill is SIGKILL, with the file-table platform's numbering.
pub open spec fn native_signal_spec(s: Signal) -> i32 {
    match s {
        Signal::Stop => 19,
        Signal::Continue => 18,
        Signal::Terminate => 15,
        Signal::Kill => 9,
    }
}

/// Maps a signal to the native number the runtime must send.
pub fn native_signal(s: Signal) -> (n: i32)
    ensures
        n == native_signal_spec(s),
{
    match s {
        Signal::Stop => 19,
        Signal::Continue => 18,
        Signal::Terminate => 15,
        Signal::Kill => 9,
    }
}

/// The operations available on the snapshot/handle platform.
#[derive(Clone, Copy, Debug, PartialEq, Eq, Structural)]
pub enum HandleOp {
    Suspend,
    Resume,
    Terminate,
}

/// The handle-platform mapping.  Terminate and Kill collapse onto the same
/// underlying primitive: that platform offers no graceful/forceful
/// distinction, an intentional platform limitation.
pub open spec fn handle_op_spec(s: Signal) -> HandleOp {
    match s {
        Signal::Stop => HandleOp::Suspend,
        Signal::Continue => HandleOp::Resume,
        Signal::Terminate => HandleOp::Terminate,
        Signal::Kill => HandleOp::Terminate,
    }
}

/// Maps a signal to the handle-platform operation.
pub fn handle_op(s: Signal) -> (r: HandleOp)
    ensures
        r == handle_op_spec(s),
{
    match s {
        Signal::Stop => HandleOp::Suspend,
        Signal::Continue => HandleOp::Resume,
        Signal::Terminate => HandleOp::Terminate,
        Signal::Kill => HandleOp::Terminate,
    }
}

} // verus!
