//! A process's stable identity: its pid paired with its creation timestamp.
//! This pairing is the sole mechanism that tells "the process I originally
//! observed" apart from a different process that now occupies the same pid.

use vstd::prelude::*;

use crate::process::Pid;
use crate::units::Time;

verus! {

/// How far two creation timestamps for the same process may drift apart
/// between two derivations and still be the same process: one second.
/// Re-derivation along different query paths can round differently within
/// the platform's reporting precision, so sub-second differences are
/// tolerated; a coarser tolerance would reintroduce the pid-reuse hazard
/// this type exists to prevent.
pub const CREATE_TIME_TOLERANCE_NS: u128 = 1_000_000_000;

/// A process's identity: pid plus creation timestamp.  Immutable once
/// constructed.
#[derive(Clone, Copy, Debug, PartialEq, Eq, Structural)]
pub struct ProcessIdentity {
    pub pid: Pid,
    pub created_at: Time,
}

/// Two identities name the same process: equal pids, and creation
/// timestamps within the tolerance of each other.
pub open spec fn identity_matches(a: ProcessIdentity, b: ProcessIdentity) -> bool {
    &&& a.pid == b.pid
    &&& (a.created_at.ns <= b.created_at.ns ==> b.created_at.ns - a.created_at.ns
        <= CREATE_TIME_TOLERANCE_NS)
    &&& (b.created_at.ns < a.created_at.ns ==> a.created_at.ns - b.created_at.ns
        <= CREATE_TIME_TOLERANCE_NS)
}

impl ProcessIdentity {
    /// Builds the identity observed for `pid` at creation time
    /// `created_at`.
    pub fn new(pid: Pid, created_at: Time) -> (r: ProcessIdentity)
        ensures
            r.pid == pid,
            r.created_at == created_at,
    {
        ProcessIdentity { pid, created_at }
    }

    /// The single predicate all revalidation is built on: never compare
    /// pids alone.
    pub fn matches(&self, other: &ProcessIdentity) -> (r: bool)
        ensures
            r == identity_matches(*self, *other),
    {
        if self.pid != other.pid {
            return false;
        }
        if self.created_at.ns <= other.created_at.ns {
            other.created_at.ns - self.created_at.ns <= CREATE_TIME_TOLERANCE_NS
        } else {
            self.created_at.ns - other.created_at.ns <= CREATE_TIME_TOLERANCE_NS
        }
    }
}

/// An identity always matches itself: deriving an identity for a live pid
/// and immediately comparing it against an unchanged derivation yields a
/// match.
pub proof fn lemma_matches_reflexive(a: ProcessIdentity)
    ensures
        identity_matches(a, a),
{
}

/// Matching is symmetric: neither side of a revalidation is privileged.
pub proof fn lemma_matches_symmetric(a: ProcessIdentity, b: ProcessIdentity)
    ensures
        identity_matches(a, b) == identity_matches(b, a),
{
}

/// Identities whose creation timestamps lie further apart than the
/// tolerance never match, whatever their pids: a pid recycled to a new
/// process with a different creation time is recognised as a different
/// process.
pub proof fn lemma_distinct_creation_never_matches(a: ProcessIdentity, b: ProcessIdentity)
    requires
        a.created_at.ns + CREATE_TIME_TOLERANCE_NS < b.created_at.ns || b.created_at.ns
            + CREATE_TIME_TOLERANCE_NS < a.created_at.ns,
    ensures
        !identity_matches(a, b),
{
}

} // verus!
