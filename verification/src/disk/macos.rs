//! Per-drive transfer counters as the kernel-table platform reports them:
//! one registry record per block-storage drive, with operation counts,
//! byte totals and accumulated transfer times.

use vstd::prelude::*;

use crate::units::{Information, Time};

verus! {

/// What the platform's device registry reports for one drive.  The
/// counters arrive as the registry's native signed integers.
#[derive(Clone, Debug, PartialEq, Eq)]
pub struct DriveSample {
    pub device: String,
    pub removable: bool,
    pub reads: i64,
    pub writes: i64,
    pub read_bytes: i64,
    pub write_bytes: i64,
    pub read_time_ns: i64,
    pub write_time_ns: i64,
}

/// One drive's transfer counters.
#[derive(Clone, Debug, PartialEq, Eq)]
pub struct IoCounters {
    pub device: String,
    pub removable: bool,
    pub reads: u64,
    pub writes: u64,
    pub read_bytes: Information,
    pub write_bytes: Information,
    pub read_time: Time,
    pub write_time: Time,
}

impl IoCounters {
    pub fn device_name(&self) -> (r: &String)
        ensures
            r == &self.device,
    {
        &self.device
    }

    pub fn read_count(&self) -> (r: u64)
        ensures
            r == self.reads,
    {
        self.reads
    }

    pub fn write_count(&self) -> (r: u64)
        ensures
            r == self.writes,
    {
        self.writes
    }

    pub fn read_bytes(&self) -> (r: Information)
        ensures
            r == self.read_bytes,
    {
        self.read_bytes
    }

    pub fn write_bytes(&self) -> (r: Information)
        ensures
            r == self.write_bytes,
    {
        self.write_bytes
    }

    pub fn read_time(&self) -> (r: Time)
        ensures
            r == self.read_time,
    {
        self.read_time
    }

    pub fn write_time(&self) -> (r: Time)
        ensures
            r == self.write_time,
    {
        self.write_time
    }

    /// Builds one drive's counters from its registry record.  The
    /// registry's signed counters are reinterpreted in the unsigned
    /// width, as the record fields below spell out.
    pub fn from_sample(s: DriveSample) -> (r: IoCounters)
        requires
            s.read_time_ns >= 0,
            s.write_time_ns >= 0,
        ensures
            r.device == s.device,
            r.removable == s.removable,
            r.reads == s.reads as u64,
            r.writes == s.writes as u64,
            r.read_bytes.bytes == s.read_bytes as u64,
            r.write_bytes.bytes == s.write_bytes as u64,
            r.read_time.ns == s.read_time_ns,
            r.write_time.ns == s.write_time_ns,
    {
        #[verifier::truncate]
        let reads = s.reads as u64;
        #[verifier::truncate]
        let writes = s.writes as u64;
        #[verifier::truncate]
        let read_bytes = s.read_bytes as u64;
        #[verifier::truncate]
        let write_bytes = s.write_bytes as u64;
        let read_time = Time { ns: s.read_time_ns as u128 };
        let write_time = Time { ns: s.write_time_ns as u128 };
        IoCounters {
            device: s.device,
            removable: s.removable,
            reads,
            writes,
            read_bytes: Information { bytes: read_bytes },
            write_bytes: Information { bytes: write_bytes },
            read_time,
            write_time,
        }
    }
}

/// Whether every sample's accumulated times are non-negative, as the
/// registry reports them.
pub open spec fn samples_ok(s: Seq<DriveSample>) -> bool {
    forall|i: int| 0 <= i < s.len() ==> (#[trigger] s[i]).read_time_ns >= 0 && s[i].write_time_ns
        >= 0
}

/// The counters each sample maps to.
pub open spec fn counters_of(s: Seq<DriveSample>) -> Seq<IoCounters> {
    s.map_values(
        |d: DriveSample| IoCounters {
            device: d.device,
            removable: d.removable,
            reads: d.reads as u64,
            writes: d.writes as u64,
            read_bytes: Information { bytes: d.read_bytes as u64 },
            write_bytes: Information { bytes: d.write_bytes as u64 },
            read_time: Time { ns: d.read_time_ns as u128 },
            write_time: Time { ns: d.write_time_ns as u128 },
        },
    )
}

/// The counters of every drive the registry listed.
pub fn io_counters(samples: Vec<DriveSample>) -> (r: Vec<IoCounters>)
    requires
        samples_ok(samples@),
    ensures
        r@ == counters_of(samples@),
{
    let ghost orig = samples@;
    let mut stack = samples;
    let mut rev: Vec<IoCounters> = Vec::new();
    proof {
        assert(counters_of(stack@) + rev@.reverse() =~= counters_of(orig));
    }
    while stack.len() > 0
        invariant
            samples_ok(stack@),
            counters_of(orig) == counters_of(stack@) + rev@.reverse(),
        decreases stack@.len(),
    {
        let ghost old_stack = stack@;
        let ghost old_rev = rev@;
        let s = stack.pop().unwrap();
        let c = IoCounters::from_sample(s);
        rev.push(c);
        proof {
            assert(counters_of(old_stack) =~= counters_of(stack@) + seq![
                counters_of(old_stack).last(),
            ]);
            assert(rev@.reverse() =~= seq![counters_of(old_stack).last()] + old_rev.reverse());
            assert(counters_of(stack@) + (seq![counters_of(old_stack).last()]
                + old_rev.reverse()) =~= (counters_of(stack@) + seq![
                counters_of(old_stack).last(),
            ]) + old_rev.reverse());
        }
    }
    proof {
        assert(counters_of(stack@) + rev@.reverse() =~= rev@.reverse());
    }
    let mut out: Vec<IoCounters> = Vec::new();
    proof {
        assert(out@ + rev@.reverse() =~= rev@.reverse());
    }
    while rev.len() > 0
        invariant
            counters_of(orig) == out@ + rev@.reverse(),
        decreases rev@.len(),
    {
        let ghost old_rev = rev@;
        let ghost old_out = out@;
        let c = rev.pop().unwrap();
        out.push(c);
        proof {
            assert(old_rev.reverse() =~= seq![old_rev.last()] + rev@.reverse());
            assert(out@ + rev@.reverse() =~= old_out + old_rev.reverse());
        }
    }
    proof {
        assert(out@ + rev@.reverse() =~= out@);
    }
    out
}

/// The fixed drives the counters keep after the removable ones are
/// dropped.
pub open spec fn fixed_of(s: Seq<IoCounters>) -> Seq<IoCounters>
    decreases s.len(),
{
    if s.len() == 0 {
        Seq::empty()
    } else {
        fixed_of(s.drop_last()) + (if !s.last().removable {
            seq![s.last()]
        } else {
            Seq::empty()
        })
    }
}

/// The counters of the non-removable drives only.
pub fn io_counters_physical(counters: Vec<IoCounters>) -> (r: Vec<IoCounters>)
    ensures
        r@ == fixed_of(counters@),
{
    let ghost orig = counters@;
    let mut stack = counters;
    let mut rev: Vec<IoCounters> = Vec::new();
    proof {
        assert(fixed_of(stack@) + rev@.reverse() =~= fixed_of(orig));
    }
    while stack.len() > 0
        invariant
            fixed_of(orig) == fixed_of(stack@) + rev@.reverse(),
        decreases stack@.len(),
    {
        let ghost old_stack = stack@;
        let ghost old_rev = rev@;
        let c = stack.pop().unwrap();
        if !c.removable {
            rev.push(c);
            proof {
                assert(fixed_of(old_stack) =~= fixed_of(stack@) + seq![old_stack.last()]);
                assert(rev@.reverse() =~= seq![old_stack.last()] + old_rev.reverse());
                assert(fixed_of(stack@) + (seq![old_stack.last()] + old_rev.reverse()) =~= (
                fixed_of(stack@) + seq![old_stack.last()]) + old_rev.reverse());
            }
        } else {
            proof {
                assert(fixed_of(old_stack) =~= fixed_of(stack@));
            }
        }
    }
    proof {
        assert(fixed_of(stack@) + rev@.reverse() =~= rev@.reverse());
    }
    let mut out: Vec<IoCounters> = Vec::new();
    proof {
        assert(out@ + rev@.reverse() =~= rev@.reverse());
    }
    while rev.len() > 0
        invariant
            fixed_of(orig) == out@ + rev@.reverse(),
        decreases rev@.len(),
    {
        let ghost old_rev = rev@;
        let ghost old_out = out@;
        let c = rev.pop().unwrap();
        out.push(c);
        proof {
            assert(old_rev.reverse() =~= seq![old_rev.last()] + rev@.reverse());
            assert(out@ + rev@.reverse() =~= old_out + old_rev.reverse());
        }
    }
    proof {
        assert(out@ + rev@.reverse() =~= out@);
    }
    out
}

} // verus!
