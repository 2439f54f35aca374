//! The caller-facing process handle, and the lookup and enumeration
//! builders.  A handle owns one identity, fixed at construction; state is
//! implicit in OS reality, so every operation takes the freshly re-derived
//! identity of whatever currently occupies the pid and decides from the
//! comparison.  Destructive operations refuse to act on a mismatch.

use vstd::prelude::*;

use crate::process::errors::ProcessError;
use crate::process::identity::{identity_matches, ProcessIdentity};
use crate::process::record::StatRecord;
use crate::process::signal::{native_signal, native_signal_spec, Signal};
use crate::process::status::Status;
use crate::process::Pid;
use crate::units::{Information, Time};

verus! {

/// An order the runtime must carry out: send `native` to `pid`.
#[derive(Clone, Copy, Debug, PartialEq, Eq, Structural)]
pub struct SignalOrder {
    pub pid: Pid,
    pub native: i32,
}

/// One step of waiting for termination.
#[derive(Clone, Copy, Debug, PartialEq, Eq, Structural)]
pub enum WaitStep {
    /// The target is no longer running (exited, or its pid was recycled):
    /// waiting is over.
    Done,
    /// The target still runs; probe again after a pause.
    KeepWaiting,
}

/// A handle to the process that was observed at a pid.  Its identity never
/// changes after construction; no state is cached, so every operation is a
/// pure function of the identity plus the fresh probe handed in.
#[derive(Clone, Copy, Debug, PartialEq, Eq, Structural)]
pub struct Process {
    identity: ProcessIdentity,
}

impl Process {
    /// The identity this handle was built around.
    pub closed spec fn spec_identity(&self) -> ProcessIdentity {
        self.identity
    }

    /// The handle's pid.
    pub closed spec fn spec_pid(&self) -> Pid {
        self.identity.pid
    }

    pub fn pid(&self) -> (r: Pid)
        ensures
            r == self.spec_pid(),
    {
        self.identity.pid
    }

    /// The creation time captured when the handle was built.
    pub fn create_time(&self) -> (r: Time)
        ensures
            r == self.spec_identity().created_at,
    {
        self.identity.created_at
    }

    pub fn identity(&self) -> (r: ProcessIdentity)
        ensures
            r == self.spec_identity(),
    {
        self.identity
    }

    /// Whether the stored identity still holds: true exactly when the
    /// fresh derivation found a process at the pid whose identity matches.
    pub fn is_running(&self, fresh: Option<&ProcessIdentity>) -> (r: bool)
        ensures
            r == (fresh matches Some(f) && identity_matches(self.spec_identity(), *f)),
    {
        match fresh {
            Some(f) => self.identity.matches(f),
            None => false,
        }
    }

    /// The decision behind every destructive operation: re-derive, compare,
    /// and only on a match order the mapped native signal sent.  On a
    /// mismatch — the process exited, or its pid now belongs to another —
    /// the operation fails with `NoSuchProcess` and nothing is sent.
    pub fn signal(&self, fresh: Option<&ProcessIdentity>, sig: Signal) -> (r: Result<
        SignalOrder,
        ProcessError,
    >)
        ensures
            r == signal_decision(self.spec_identity(), fresh_of(fresh), sig),
    {
        if self.is_running(fresh) {
            Ok(SignalOrder { pid: self.identity.pid, native: native_signal(sig) })
        } else {
            Err(ProcessError::NoSuchProcess(self.identity.pid))
        }
    }

    /// Suspend: the Stop signal, behind the identity check.
    pub fn suspend(&self, fresh: Option<&ProcessIdentity>) -> (r: Result<
        SignalOrder,
        ProcessError,
    >)
        ensures
            r == signal_decision(self.spec_identity(), fresh_of(fresh), Signal::Stop),
    {
        self.signal(fresh, Signal::Stop)
    }

    /// Resume: the Continue signal, behind the identity check.
    pub fn resume(&self, fresh: Option<&ProcessIdentity>) -> (r: Result<
        SignalOrder,
        ProcessError,
    >)
        ensures
            r == signal_decision(self.spec_identity(), fresh_of(fresh), Signal::Continue),
    {
        self.signal(fresh, Signal::Continue)
    }

    /// Terminate: the Terminate signal, behind the identity check.
    pub fn terminate(&self, fresh: Option<&ProcessIdentity>) -> (r: Result<
        SignalOrder,
        ProcessError,
    >)
        ensures
            r == signal_decision(self.spec_identity(), fresh_of(fresh), Signal::Terminate),
    {
        self.signal(fresh, Signal::Terminate)
    }

    /// Kill: the Kill signal, behind the identity check.
    pub fn kill(&self, fresh: Option<&ProcessIdentity>) -> (r: Result<SignalOrder, ProcessError>)
        ensures
            r == signal_decision(self.spec_identity(), fresh_of(fresh), Signal::Kill),
    {
        self.signal(fresh, Signal::Kill)
    }

    /// One round of waiting for termination.  The loop condition is the
    /// identity, never bare existence: a recycled pid reads as `Done`, so
    /// the wait neither reports success against the new occupant nor hangs
    /// watching the wrong process.  A target that is already not running
    /// yields `Done` on the first round, without an error.
    pub fn wait(&self, fresh: Option<&ProcessIdentity>) -> (r: WaitStep)
        ensures
            r == wait_decision(self.spec_identity(), fresh_of(fresh)),
    {
        if self.is_running(fresh) {
            WaitStep::KeepWaiting
        } else {
            WaitStep::Done
        }
    }
}

/// Accumulated CPU time of one process: time spent in user mode and in
/// kernel mode on its behalf.
#[derive(Clone, Copy, Debug, PartialEq, Eq, Structural)]
pub struct CpuTime {
    pub user: Time,
    pub system: Time,
}

/// Memory usage of one process: its resident set.
#[derive(Clone, Copy, Debug, PartialEq, Eq, Structural)]
pub struct Memory {
    pub rss: Information,
}

impl Process {
    /// The name the current occupant of the pid reports.  Read-only
    /// queries answer from whatever process currently holds the pid; they
    /// do not revalidate identity, a narrower guarantee than the control
    /// operations give.
    pub fn name(&self, rec: Option<&StatRecord>) -> (r: Result<Vec<u8>, ProcessError>)
        ensures
            match rec {
                Some(record) => r matches Ok(n) && n@ == record.name@,
                None => r == Err::<Vec<u8>, ProcessError>(
                    ProcessError::NoSuchProcess(self.spec_pid()),
                ),
            },
    {
        match rec {
            Some(record) => {
                let mut n: Vec<u8> = Vec::new();
                let mut i: usize = 0;
                while i < record.name.len()
                    invariant
                        0 <= i <= record.name@.len(),
                        n@ =~= record.name@.subrange(0, i as int),
                    decreases record.name@.len() - i,
                {
                    n.push(record.name[i]);
                    i = i + 1;
                }
                proof {
                    assert(n@ =~= record.name@);
                }
                Ok(n)
            },
            None => Err(ProcessError::NoSuchProcess(self.identity.pid)),
        }
    }

    /// The current occupant's parent pid; a read-only query.
    pub fn parent_pid(&self, rec: Option<&StatRecord>) -> (r: Result<Pid, ProcessError>)
        ensures
            match rec {
                Some(record) => r == Ok::<Pid, ProcessError>(record.ppid),
                None => r == Err::<Pid, ProcessError>(
                    ProcessError::NoSuchProcess(self.spec_pid()),
                ),
            },
    {
        match rec {
            Some(record) => Ok(record.ppid),
            None => Err(ProcessError::NoSuchProcess(self.identity.pid)),
        }
    }

    /// The current occupant's status; a read-only query.
    pub fn status(&self, rec: Option<&StatRecord>) -> (r: Result<Status, ProcessError>)
        ensures
            match rec {
                Some(record) => r == Ok::<Status, ProcessError>(record.status),
                None => r == Err::<Status, ProcessError>(
                    ProcessError::NoSuchProcess(self.spec_pid()),
                ),
            },
    {
        match rec {
            Some(record) => Ok(record.status),
            None => Err(ProcessError::NoSuchProcess(self.identity.pid)),
        }
    }

    /// The current occupant's accumulated CPU time, converted from its
    /// tick counts; a read-only query.
    pub fn cpu_time(&self, rec: Option<&StatRecord>, ticks_per_sec: u64) -> (r: Result<
        CpuTime,
        ProcessError,
    >)
        requires
            ticks_per_sec > 0,
        ensures
            match rec {
                Some(record) => r matches Ok(t) && t.user.ns == record.utime_ticks
                    * 1_000_000_000 / (ticks_per_sec as int) && t.system.ns
                    == record.stime_ticks * 1_000_000_000 / (ticks_per_sec as int),
                None => r == Err::<CpuTime, ProcessError>(
                    ProcessError::NoSuchProcess(self.spec_pid()),
                ),
            },
    {
        match rec {
            Some(record) => Ok(
                CpuTime {
                    user: Time::from_ticks(record.utime_ticks, ticks_per_sec),
                    system: Time::from_ticks(record.stime_ticks, ticks_per_sec),
                },
            ),
            None => Err(ProcessError::NoSuchProcess(self.identity.pid)),
        }
    }

    /// The current occupant's resident memory, from its page count and
    /// the platform's page size; a read-only query.
    pub fn memory(&self, rec: Option<&StatRecord>, page_size: u64) -> (r: Result<
        Memory,
        ProcessError,
    >)
        requires
            rec matches Some(record) ==> record.rss_pages * page_size <= u64::MAX,
        ensures
            match rec {
                Some(record) => r matches Ok(m) && m.rss.bytes == record.rss_pages * page_size,
                None => r == Err::<Memory, ProcessError>(
                    ProcessError::NoSuchProcess(self.spec_pid()),
                ),
            },
    {
        match rec {
            Some(record) => Ok(
                Memory { rss: Information { bytes: record.rss_pages * page_size } },
            ),
            None => Err(ProcessError::NoSuchProcess(self.identity.pid)),
        }
    }
}

/// The identity a fresh probe found, as a mathematical option.
pub open spec fn fresh_of(fresh: Option<&ProcessIdentity>) -> Option<ProcessIdentity> {
    match fresh {
        Some(f) => Some(*f),
        None => None,
    }
}

/// What one wait round decides: keep waiting exactly while the identity
/// still matches.
pub open spec fn wait_decision(stored: ProcessIdentity, fresh: Option<ProcessIdentity>) -> WaitStep {
    if fresh matches Some(f) && identity_matches(stored, f) {
        WaitStep::KeepWaiting
    } else {
        WaitStep::Done
    }
}

/// What `Process::signal` decides: an order for the mapped native signal
/// when the fresh identity matches the stored one, `NoSuchProcess`
/// otherwise.
pub open spec fn signal_decision(
    stored: ProcessIdentity,
    fresh: Option<ProcessIdentity>,
    sig: Signal,
) -> Result<SignalOrder, ProcessError> {
    if fresh matches Some(f) && identity_matches(stored, f) {
        Ok(SignalOrder { pid: stored.pid, native: native_signal_spec(sig) })
    } else {
        Err(ProcessError::NoSuchProcess(stored.pid))
    }
}

/// What a lookup returns for a pid, given the identity derivation's
/// outcome: a handle around the derived identity when the pid resolved to
/// a live record, `NoSuchProcess` when it did not.
pub closed spec fn lookup_result(pid: Pid, fresh: Option<ProcessIdentity>) -> Result<
    Process,
    ProcessError,
> {
    match fresh {
        Some(f) => Ok(Process { identity: f }),
        None => Err(ProcessError::NoSuchProcess(pid)),
    }
}

/// Loads the process information for `pid`, given the freshly derived
/// identity at that pid (`None` when no live process matched).  Succeeds
/// for every currently live pid, and the returned handle's pid equals
/// `pid`; fails with `NoSuchProcess` for a pid that is not live.
pub fn get(pid: Pid, fresh: Option<ProcessIdentity>) -> (r: Result<Process, ProcessError>)
    requires
        fresh matches Some(f) ==> f.pid == pid,
    ensures
        r == lookup_result(pid, fresh),
        fresh is Some ==> (r matches Ok(p) && p.spec_pid() == pid && p.spec_identity()
            == fresh.unwrap()),
        fresh is None ==> r == Err::<Process, ProcessError>(ProcessError::NoSuchProcess(pid)),
{
    match fresh {
        Some(f) => Ok(Process { identity: f }),
        None => Err(ProcessError::NoSuchProcess(pid)),
    }
}

/// The handle for the calling program itself.  The caller is alive, so its
/// own derivation always succeeds: this lookup cannot fail, and the
/// handle's pid is the caller's own pid.
pub fn current(own_pid: Pid, fresh: ProcessIdentity) -> (r: Process)
    requires
        fresh.pid == own_pid,
    ensures
        r.spec_pid() == own_pid,
        r.spec_identity() == fresh,
{
    Process { identity: fresh }
}

/// What the enumerator yields for each probed pid.
pub closed spec fn enumeration_of(probes: Seq<(Pid, Option<ProcessIdentity>)>) -> Seq<Result<
    Process,
    ProcessError,
>> {
    probes.map_values(|p: (Pid, Option<ProcessIdentity>)| lookup_result(p.0, p.1))
}

/// Maps one point-in-time pass over the process table into handles: each
/// pid that still resolved when its identity was derived yields a handle,
/// and a pid that disappeared between listing and derivation yields a
/// per-element error rather than aborting the whole sequence.  Order is
/// whatever the table pass produced; none is promised.
pub fn processes(probes: Vec<(Pid, Option<ProcessIdentity>)>) -> (r: Vec<Result<
    Process,
    ProcessError,
>>)
    requires
        forall|i: int|
            0 <= i < probes@.len() ==> (#[trigger] probes@[i].1) matches Some(f) && f.pid
                == probes@[i].0 || probes@[i].1 is None,
    ensures
        r@ == enumeration_of(probes@),
        r@.len() == probes@.len(),
{
    let mut out: Vec<Result<Process, ProcessError>> = Vec::new();
    let mut i: usize = 0;
    while i < probes.len()
        invariant
            0 <= i <= probes@.len(),
            out@ =~= enumeration_of(probes@.subrange(0, i as int)),
            forall|k: int|
                0 <= k < probes@.len() ==> (#[trigger] probes@[k].1) matches Some(f) && f.pid
                    == probes@[k].0 || probes@[k].1 is None,
        decreases probes@.len() - i,
    {
        let (pid, fresh) = probes[i];
        let entry = get(pid, fresh);
        out.push(entry);
        proof {
            assert(probes@.subrange(0, i as int + 1).drop_last() =~= probes@.subrange(
                0,
                i as int,
            ));
            assert(enumeration_of(probes@.subrange(0, i as int + 1)) =~= enumeration_of(
                probes@.subrange(0, i as int),
            ).push(lookup_result(probes@[i as int].0, probes@[i as int].1)));
        }
        i = i + 1;
    }
    proof {
        assert(probes@.subrange(0, probes@.len() as int) =~= probes@);
    }
    out
}

/// A live pid is never silently dropped by the enumerator: if the table
/// pass listed `pid` and its derivation succeeded, the enumeration holds a
/// handle whose pid is `pid`.  In particular the enumeration includes the
/// caller's own pid.
pub proof fn lemma_enumeration_covers_live(probes: Seq<(Pid, Option<ProcessIdentity>)>, i: int)
    requires
        0 <= i < probes.len(),
        probes[i].1 is Some,
        probes[i].1.unwrap().pid == probes[i].0,
    ensures
        enumeration_of(probes)[i] matches Ok(p) && p.spec_pid() == probes[i].0,
{
}

/// Every control operation built from a stale identity — one whose pid the
/// OS has recycled to an unrelated process with a creation time outside
/// the tolerance — fails with `NoSuchProcess`, whatever signal was asked
/// for, and orders nothing sent: the new occupant is untouched.
pub proof fn lemma_stale_identity_refused(
    stored: ProcessIdentity,
    occupant: ProcessIdentity,
    sig: Signal,
)
    requires
        stored.created_at.ns + crate::process::identity::CREATE_TIME_TOLERANCE_NS
            < occupant.created_at.ns || occupant.created_at.ns
            + crate::process::identity::CREATE_TIME_TOLERANCE_NS < stored.created_at.ns,
    ensures
        signal_decision(stored, Some(occupant), sig) == Err::<SignalOrder, ProcessError>(
            ProcessError::NoSuchProcess(stored.pid),
        ),
{
    crate::process::identity::lemma_distinct_creation_never_matches(stored, occupant);
}

/// Against a target whose identity still matches, suspend orders exactly
/// the Stop signal and resume orders exactly the Continue signal, both to
/// the stored pid and neither refused: the pair that a job-control-capable
/// target leaves Running again, with Stopped observable in between —
/// that state transition itself is the kernel's behaviour, outside this
/// model.
pub proof fn lemma_suspend_resume_orders(stored: ProcessIdentity, fresh: ProcessIdentity)
    requires
        identity_matches(stored, fresh),
    ensures
        signal_decision(stored, Some(fresh), Signal::Stop) == Ok::<SignalOrder, ProcessError>(
            SignalOrder { pid: stored.pid, native: native_signal_spec(Signal::Stop) },
        ),
        signal_decision(stored, Some(fresh), Signal::Continue) == Ok::<
            SignalOrder,
            ProcessError,
        >(SignalOrder { pid: stored.pid, native: native_signal_spec(Signal::Continue) }),
        native_signal_spec(Signal::Stop) != native_signal_spec(Signal::Continue),
{
}

/// Waiting on a target that is already not running finishes at once: the
/// very first wait round yields `Done`, not an error and not a pause.
pub proof fn lemma_wait_done_when_gone(stored: ProcessIdentity, fresh: Option<ProcessIdentity>)
    requires
        !(fresh matches Some(f) && identity_matches(stored, f)),
    ensures
        wait_decision(stored, fresh) == WaitStep::Done,
{
}

} // verus!
