//! Per-volume transfer counters as the snapshot/handle platform reports
//! them: one performance record per volume, with operation counts, byte
//! totals and accumulated transfer times in the device driver's raw unit
//! of tenths of microseconds.

use vstd::prelude::*;

use crate::units::{Information, Time};

verus! {

/// One volume's raw performance record.
#[derive(Clone, Copy, Debug, PartialEq, Eq)]
pub struct VolumePerf {
    pub read_count: u32,
    pub write_count: u32,
    pub bytes_read: i64,
    pub bytes_written: i64,
    pub read_time_raw: i64,
    pub write_time_raw: i64,
}

/// One volume as the runtime found it: its path, whether it is a fixed
/// drive, and its performance record where the driver offered one.
#[derive(Clone, Debug, PartialEq, Eq)]
pub struct VolumeSample {
    pub path: String,
    pub fixed: bool,
    pub perf: Option<VolumePerf>,
}

/// One volume's transfer counters.
#[derive(Clone, Debug, PartialEq, Eq)]
pub struct IoCounters {
    pub volume_path: String,
    pub read_count: u64,
    pub write_count: u64,
    pub read_bytes: Information,
    pub write_bytes: Information,
    pub read_time: Time,
    pub write_time: Time,
}

impl IoCounters {
    pub fn device_name(&self) -> (r: &String)
        ensures
            r == &self.volume_path,
    {
        &self.volume_path
    }

    pub fn read_count(&self) -> (r: u64)
        ensures
            r == self.read_count,
    {
        self.read_count
    }

    pub fn write_count(&self) -> (r: u64)
        ensures
            r == self.write_count,
    {
        self.write_count
    }

    pub fn read_bytes(&self) -> (r: Information)
        ensures
            r == self.read_bytes,
    {
        self.read_bytes
    }

    pub fn write_bytes(&self) -> (r: Information)
        ensures
            r == self.write_bytes,
    {
        self.write_bytes
    }

    pub fn read_time(&self) -> (r: Time)
        ensures
            r == self.read_time,
    {
        self.read_time
    }

    pub fn write_time(&self) -> (r: Time)
        ensures
            r == self.write_time,
    {
        self.write_time
    }
}

/// Whether every record's accumulated times are non-negative, as the
/// driver reports them.
pub open spec fn perfs_ok(s: Seq<VolumeSample>) -> bool {
    forall|i: int|
        0 <= i < s.len() ==> ((#[trigger] s[i]).perf matches Some(p) ==> p.read_time_raw >= 0
            && p.write_time_raw >= 0)
}

/// Builds one volume's counters from its performance record.
pub fn from_perf(path: String, p: VolumePerf) -> (r: IoCounters)
    requires
        p.read_time_raw >= 0,
        p.write_time_raw >= 0,
    ensures
        r.volume_path == path,
        r.read_count == p.read_count as u64,
        r.write_count == p.write_count as u64,
        r.read_bytes.bytes == p.bytes_read as u64,
        r.write_bytes.bytes == p.bytes_written as u64,
        r.read_time.ns == p.read_time_raw * 10_000,
        r.write_time.ns == p.write_time_raw * 10_000,
{
    #[verifier::truncate]
    let read_bytes = p.bytes_read as u64;
    #[verifier::truncate]
    let write_bytes = p.bytes_written as u64;
    let read_time = Time { ns: (p.read_time_raw as u128) * 10_000 };
    let write_time = Time { ns: (p.write_time_raw as u128) * 10_000 };
    IoCounters {
        volume_path: path,
        read_count: p.read_count as u64,
        write_count: p.write_count as u64,
        read_bytes: Information { bytes: read_bytes },
        write_bytes: Information { bytes: write_bytes },
        read_time,
        write_time,
    }
}

/// The counters one sample maps to, its driver times turned from tenths
/// of microseconds into nanoseconds.
pub open spec fn counters_of_sample(d: VolumeSample) -> IoCounters {
    IoCounters {
        volume_path: d.path,
        read_count: d.perf.unwrap().read_count as u64,
        write_count: d.perf.unwrap().write_count as u64,
        read_bytes: Information { bytes: d.perf.unwrap().bytes_read as u64 },
        write_bytes: Information { bytes: d.perf.unwrap().bytes_written as u64 },
        read_time: Time { ns: (d.perf.unwrap().read_time_raw * 10_000) as u128 },
        write_time: Time { ns: (d.perf.unwrap().write_time_raw * 10_000) as u128 },
    }
}

/// The counters of the volumes that are kept: those with a performance
/// record, and, when only physical drives are asked for, those that are
/// fixed drives besides.
pub open spec fn counters_of(s: Seq<VolumeSample>, physical_only: bool) -> Seq<IoCounters>
    decreases s.len(),
{
    if s.len() == 0 {
        Seq::empty()
    } else {
        counters_of(s.drop_last(), physical_only) + (if s.last().perf is Some && (!physical_only
            || s.last().fixed) {
            seq![counters_of_sample(s.last())]
        } else {
            Seq::empty()
        })
    }
}

fn build(samples: Vec<VolumeSample>, physical_only: bool) -> (r: Vec<IoCounters>)
    requires
        perfs_ok(samples@),
    ensures
        r@ == counters_of(samples@, physical_only),
{
    let ghost orig = samples@;
    let mut stack = samples;
    let mut rev: Vec<IoCounters> = Vec::new();
    proof {
        assert(counters_of(stack@, physical_only) + rev@.reverse() =~= counters_of(
            orig,
            physical_only,
        ));
    }
    while stack.len() > 0
        invariant
            perfs_ok(stack@),
            counters_of(orig, physical_only) == counters_of(stack@, physical_only)
                + rev@.reverse(),
        decreases stack@.len(),
    {
        let ghost old_stack = stack@;
        let ghost old_rev = rev@;
        let s = stack.pop().unwrap();
        let keep = match &s.perf {
            Some(_) => !physical_only || s.fixed,
            None => false,
        };
        if keep {
            let ghost mapped = counters_of_sample(old_stack.last());
            let path = s.path;
            let perf = match s.perf {
                Some(p) => p,
                None => {
                    proof {
                        assert(false);
                    }
                    VolumePerf {
                        read_count: 0,
                        write_count: 0,
                        bytes_read: 0,
                        bytes_written: 0,
                        read_time_raw: 0,
                        write_time_raw: 0,
                    }
                },
            };
            let c = from_perf(path, perf);
            rev.push(c);
            proof {
                assert(c == mapped);
                assert(counters_of(old_stack, physical_only) =~= counters_of(
                    stack@,
                    physical_only,
                ) + seq![mapped]);
                assert(rev@.reverse() =~= seq![mapped] + old_rev.reverse());
                assert(counters_of(stack@, physical_only) + (seq![mapped] + old_rev.reverse())
                    =~= (counters_of(stack@, physical_only) + seq![mapped]) + old_rev.reverse());
            }
        } else {
            proof {
                assert(counters_of(old_stack, physical_only) =~= counters_of(
                    stack@,
                    physical_only,
                ));
            }
        }
    }
    proof {
        assert(counters_of(stack@, physical_only) + rev@.reverse() =~= rev@.reverse());
    }
    let mut out: Vec<IoCounters> = Vec::new();
    proof {
        assert(out@ + rev@.reverse() =~= rev@.reverse());
    }
    while rev.len() > 0
        invariant
            counters_of(orig, physical_only) == out@ + rev@.reverse(),
        decreases rev@.len(),
    {
        let ghost old_rev = rev@;
        let ghost old_out = out@;
        let c = rev.pop().unwrap();
        out.push(c);
        proof {
            assert(old_rev.reverse() =~= seq![old_rev.last()] + rev@.reverse());
            assert(out@ + rev@.reverse() =~= old_out + old_rev.reverse());
        }
    }
    proof {
        assert(out@ + rev@.reverse() =~= out@);
    }
    out
}

/// The counters of every volume whose driver offered a performance
/// record.
pub fn io_counters(samples: Vec<VolumeSample>) -> (r: Vec<IoCounters>)
    requires
        perfs_ok(samples@),
    ensures
        r@ == counters_of(samples@, false),
{
    build(samples, false)
}

/// The counters of the fixed drives only.
pub fn io_counters_physical(samples: Vec<VolumeSample>) -> (r: Vec<IoCounters>)
    requires
        perfs_ok(samples@),
    ensures
        r@ == counters_of(samples@, true),
{
    build(samples, true)
}

} // verus!
