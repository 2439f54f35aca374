//! Accumulated CPU time, machine-wide and per core, read from the kernel
//! counter table: one line of tick counts per CPU, converted into spans
//! through the platform's ticks per second.

use vstd::prelude::*;

use crate::error::Error;
use crate::parse::{
    all_digits, digits_value, fields_of, is_prefix, lines_of, split_fields, split_lines,
    starts_with,
};
use crate::units::Time;
use vstd::string::StringSliceAdditionalSpecFns;

verus! {

/// One CPU's accumulated times.  The two guest counters are reported only
/// by newer kernels and are absent when their columns are missing.
#[derive(Clone, Copy, Debug, PartialEq, Eq)]
pub struct CpuTime {
    pub user: Time,
    pub nice: Time,
    pub system: Time,
    pub idle: Time,
    pub io_wait: Time,
    pub irq: Time,
    pub soft_irq: Time,
    pub steal: Time,
    pub guest: Option<Time>,
    pub guest_nice: Option<Time>,
}

impl CpuTime {
    pub fn user(&self) -> (r: Time)
        ensures
            r == self.user,
    {
        self.user
    }

    pub fn nice(&self) -> (r: Time)
        ensures
            r == self.nice,
    {
        self.nice
    }

    pub fn system(&self) -> (r: Time)
        ensures
            r == self.system,
    {
        self.system
    }

    pub fn idle(&self) -> (r: Time)
        ensures
            r == self.idle,
    {
        self.idle
    }

    pub fn io_wait(&self) -> (r: Time)
        ensures
            r == self.io_wait,
    {
        self.io_wait
    }

    pub fn irq(&self) -> (r: Time)
        ensures
            r == self.irq,
    {
        self.irq
    }

    pub fn soft_irq(&self) -> (r: Time)
        ensures
            r == self.soft_irq,
    {
        self.soft_irq
    }

    pub fn steal(&self) -> (r: Time)
        ensures
            r == self.steal,
    {
        self.steal
    }

    pub fn guest(&self) -> (r: Option<Time>)
        ensures
            r == self.guest,
    {
        self.guest
    }

    pub fn guest_nice(&self) -> (r: Option<Time>)
        ensures
            r == self.guest_nice,
    {
        self.guest_nice
    }
}

/// A tick column that fits the kernel's 32-bit counter width.
pub open spec fn valid_u32(f: Seq<u8>) -> bool {
    f.len() > 0 && all_digits(f) && digits_value(f) <= u32::MAX
}

/// The span a tick column denotes.
pub open spec fn tick_time(f: Seq<u8>, ticks_per_sec: u64) -> Time {
    Time { ns: ((digits_value(f) as int) * 1_000_000_000 / (ticks_per_sec as int)) as u128 }
}

/// The column at `k`, as a span; columns past the end read as zero.
pub open spec fn column_time(fs: Seq<Seq<u8>>, k: int, ticks_per_sec: u64) -> Time {
    if k < fs.len() {
        tick_time(fs[k], ticks_per_sec)
    } else {
        Time { ns: 0 }
    }
}

/// Whether every tick column present (the first eleven at most, the
/// line's label aside) parses within the counter width.
pub open spec fn columns_parse(fs: Seq<Seq<u8>>) -> bool {
    forall|k: int| 1 <= k < fs.len() && k < 11 ==> valid_u32(#[trigger] fs[k])
}

/// What one counter line yields: the label column is skipped, the next
/// ten columns fill the record in order, and columns the line does not
/// have stay zero or absent.
pub open spec fn cpu_time_result(fs: Seq<Seq<u8>>, ticks_per_sec: u64) -> Result<CpuTime, Error> {
    if columns_parse(fs) {
        Ok(
            CpuTime {
                user: column_time(fs, 1, ticks_per_sec),
                nice: column_time(fs, 2, ticks_per_sec),
                system: column_time(fs, 3, ticks_per_sec),
                idle: column_time(fs, 4, ticks_per_sec),
                io_wait: column_time(fs, 5, ticks_per_sec),
                irq: column_time(fs, 6, ticks_per_sec),
                soft_irq: column_time(fs, 7, ticks_per_sec),
                steal: column_time(fs, 8, ticks_per_sec),
                guest: if fs.len() > 9 {
                    Some(column_time(fs, 9, ticks_per_sec))
                } else {
                    None
                },
                guest_nice: if fs.len() > 10 {
                    Some(column_time(fs, 10, ticks_per_sec))
                } else {
                    None
                },
            },
        )
    } else {
        Err(Error::InvalidData)
    }
}

/// Reads the tick column at `k` of `fs`, as a span; a column past the end
/// reads as zero.
fn read_column(fs: &Vec<Vec<u8>>, k: usize, ticks_per_sec: u64) -> (r: Result<Time, Error>)
    requires
        ticks_per_sec > 0,
    ensures
        match r {
            Ok(t) => (k < fs@.len() ==> valid_u32(fs@[k as int]@) && t == tick_time(
                fs@[k as int]@,
                ticks_per_sec,
            )) && (k >= fs@.len() ==> t == (Time { ns: 0 })),
            Err(e) => k < fs@.len() && !valid_u32(fs@[k as int]@) && e == Error::InvalidData,
        },
{
    if k >= fs.len() {
        return Ok(Time { ns: 0 });
    }
    match crate::parse::parse_u64(fs[k].as_slice()) {
        Ok(v) => {
            if v > 0xffff_ffff {
                Err(Error::InvalidData)
            } else {
                Ok(Time::from_ticks(v, ticks_per_sec))
            }
        },
        Err(_) => Err(Error::InvalidData),
    }
}

impl CpuTime {
    /// Reads one counter line, given the platform's ticks per second.
    pub fn from_str(line: &[u8], ticks_per_sec: u64) -> (r: Result<CpuTime, Error>)
        requires
            ticks_per_sec > 0,
        ensures
            r == cpu_time_result(fields_of(line@), ticks_per_sec),
    {
        let fs = split_fields(line);
        let ghost fv = fields_of(line@);
        proof {
            assert(forall|k: int| 0 <= k < fs@.len() ==> (#[trigger] fs@[k])@ == fv[k]);
        }
        let user = match read_column(&fs, 1, ticks_per_sec) {
            Ok(t) => t,
            Err(e) => {
                return Err(e);
            },
        };
        let nice = match read_column(&fs, 2, ticks_per_sec) {
            Ok(t) => t,
            Err(e) => {
                return Err(e);
            },
        };
        let system = match read_column(&fs, 3, ticks_per_sec) {
            Ok(t) => t,
            Err(e) => {
                return Err(e);
            },
        };
        let idle = match read_column(&fs, 4, ticks_per_sec) {
            Ok(t) => t,
            Err(e) => {
                return Err(e);
            },
        };
        let io_wait = match read_column(&fs, 5, ticks_per_sec) {
            Ok(t) => t,
            Err(e) => {
                return Err(e);
            },
        };
        let irq = match read_column(&fs, 6, ticks_per_sec) {
            Ok(t) => t,
            Err(e) => {
                return Err(e);
            },
        };
        let soft_irq = match read_column(&fs, 7, ticks_per_sec) {
            Ok(t) => t,
            Err(e) => {
                return Err(e);
            },
        };
        let steal = match read_column(&fs, 8, ticks_per_sec) {
            Ok(t) => t,
            Err(e) => {
                return Err(e);
            },
        };
        let guest = if fs.len() > 9 {
            match read_column(&fs, 9, ticks_per_sec) {
                Ok(t) => Some(t),
                Err(e) => {
                    return Err(e);
                },
            }
        } else {
            None
        };
        let guest_nice = if fs.len() > 10 {
            match read_column(&fs, 10, ticks_per_sec) {
                Ok(t) => Some(t),
                Err(e) => {
                    return Err(e);
                },
            }
        } else {
            None
        };
        Ok(CpuTime { user, nice, system, idle, io_wait, irq, soft_irq, steal, guest, guest_nice })
    }
}

/// The machine-wide accumulated time: the counter table's first line.
pub fn time(contents: &[u8], ticks_per_sec: u64) -> (r: Result<CpuTime, Error>)
    requires
        ticks_per_sec > 0,
    ensures
        lines_of(contents@).len() == 0 ==> r == Err::<CpuTime, Error>(Error::MissingKey),
        lines_of(contents@).len() > 0 ==> r == cpu_time_result(
            fields_of(lines_of(contents@)[0]),
            ticks_per_sec,
        ),
{
    let ls = split_lines(contents);
    if ls.len() == 0 {
        return Err(Error::MissingKey);
    }
    proof {
        assert(ls@[0]@ == lines_of(contents@)[0]);
    }
    CpuTime::from_str(ls[0].as_slice(), ticks_per_sec)
}

/// The per-CPU lines: those after the first that carry the CPU label.
pub open spec fn per_cpu_lines(ls: Seq<Seq<u8>>) -> Seq<Seq<u8>>
    decreases ls.len(),
{
    if ls.len() <= 1 {
        Seq::empty()
    } else {
        per_cpu_lines(ls.drop_last()) + (if is_prefix(("cpu").spec_bytes(), ls.last()) {
            seq![ls.last()]
        } else {
            Seq::empty()
        })
    }
}

/// The accumulated time of each CPU, one result per per-CPU line; a line
/// that does not parse yields its own error without aborting the rest.
pub fn times(contents: &[u8], ticks_per_sec: u64) -> (r: Vec<Result<CpuTime, Error>>)
    requires
        ticks_per_sec > 0,
    ensures
        r@.len() == per_cpu_lines(lines_of(contents@)).len(),
        forall|k: int|
            0 <= k < r@.len() ==> r@[k] == cpu_time_result(
                fields_of(per_cpu_lines(lines_of(contents@))[k]),
                ticks_per_sec,
            ),
{
    let ls = split_lines(contents);
    let ghost lv = lines_of(contents@);
    let cpu_kw = "cpu".as_bytes();
    let mut out: Vec<Result<CpuTime, Error>> = Vec::new();
    let mut i: usize = 1;
    if ls.len() <= 1 {
        proof {
            assert(per_cpu_lines(lv).len() == 0);
        }
        return out;
    }
    proof {
        assert(lv.subrange(0, 1) =~= lv.subrange(0, 1));
        assert(per_cpu_lines(lv.subrange(0, 1)).len() == 0);
    }
    while i < ls.len()
        invariant
            1 <= i <= lv.len(),
            lv == lines_of(contents@),
            ls@.map_values(|x: Vec<u8>| x@) == lv,
            cpu_kw@ == ("cpu").spec_bytes(),
            ticks_per_sec > 0,
            out@.len() == per_cpu_lines(lv.subrange(0, i as int)).len(),
            forall|k: int|
                0 <= k < out@.len() ==> out@[k] == cpu_time_result(
                    fields_of(per_cpu_lines(lv.subrange(0, i as int))[k]),
                    ticks_per_sec,
                ),
        decreases lv.len() - i,
    {
        let ghost done = per_cpu_lines(lv.subrange(0, i as int));
        proof {
            assert(lv.subrange(0, i as int + 1).drop_last() =~= lv.subrange(0, i as int));
            assert(lv.subrange(0, i as int + 1).last() == lv[i as int]);
            assert(ls@[i as int]@ == lv[i as int]);
        }
        let line = ls[i].as_slice();
        if starts_with(line, cpu_kw) {
            let entry = CpuTime::from_str(line, ticks_per_sec);
            out.push(entry);
            proof {
                assert(per_cpu_lines(lv.subrange(0, i as int + 1)) =~= done + seq![
                    lv[i as int],
                ]);
            }
        } else {
            proof {
                assert(per_cpu_lines(lv.subrange(0, i as int + 1)) =~= done);
            }
        }
        i = i + 1;
    }
    proof {
        assert(lv.subrange(0, lv.len() as int) =~= lv);
    }
    out
}

} // verus!
