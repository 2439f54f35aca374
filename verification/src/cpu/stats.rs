//! Kernel-wide CPU event counters: context switches, interrupts and soft
//! interrupts, read from the kernel counter table.

use vstd::prelude::*;

use crate::error::Error;
use crate::parse::{
    bytes_eq, digits_value, lines_of, parts_of, split_lines, split_parts, trim_end,
    trim_end_spec, valid_u64,
};
use vstd::string::StringSliceAdditionalSpecFns;

verus! {

/// The three counters the reader collects.  A counter whose line is
/// absent stays zero.
#[derive(Clone, Copy, Debug, PartialEq, Eq, Structural)]
pub struct CpuStats {
    pub ctx_switches: u64,
    pub interrupts: u64,
    pub soft_interrupts: u64,
}

impl CpuStats {
    pub fn ctx_switches(&self) -> (r: u64)
        ensures
            r == self.ctx_switches,
    {
        self.ctx_switches
    }

    pub fn interrupts(&self) -> (r: u64)
        ensures
            r == self.interrupts,
    {
        self.interrupts
    }

    pub fn soft_interrupts(&self) -> (r: u64)
        ensures
            r == self.soft_interrupts,
    {
        self.soft_interrupts
    }
}

/// The first space-separated word of a line.
pub open spec fn line_key(l: Seq<u8>) -> Seq<u8> {
    parts_of(l, 32)[0]
}

/// The counter a line carries: its second space-separated piece, trailing
/// whitespace removed, read as a number.  A keyed line with no second
/// piece is missing its value; one whose piece does not parse is
/// malformed.
pub open spec fn line_counter(l: Seq<u8>) -> Result<u64, Error> {
    let ps = parts_of(l, 32);
    if ps.len() < 2 {
        Err(Error::MissingKey)
    } else if valid_u64(trim_end_spec(ps[1])) {
        Ok(digits_value(trim_end_spec(ps[1])) as u64)
    } else {
        Err(Error::InvalidData)
    }
}

/// What a left-to-right pass over the counter table's lines leaves
/// behind.  The pass stops once all three counters have been seen.
pub enum StatsScan {
    Done { ctx: u64, intr: u64, soft: u64 },
    Malformed(Error),
}

/// Scans the table, taking each keyed line's counter in turn.
pub open spec fn scan_stats(ls: Seq<Seq<u8>>, ctx: u64, intr: u64, soft: u64, matched: int) -> StatsScan
    decreases ls.len(),
{
    if matched >= 3 || ls.len() == 0 {
        StatsScan::Done { ctx, intr, soft }
    } else {
        let l = ls[0];
        let rest = ls.subrange(1, ls.len() as int);
        if line_key(l) == ("ctxt").spec_bytes() {
            match line_counter(l) {
                Ok(v) => scan_stats(rest, v, intr, soft, matched + 1),
                Err(e) => StatsScan::Malformed(e),
            }
        } else if line_key(l) == ("intr").spec_bytes() {
            match line_counter(l) {
                Ok(v) => scan_stats(rest, ctx, v, soft, matched + 1),
                Err(e) => StatsScan::Malformed(e),
            }
        } else if line_key(l) == ("softirq").spec_bytes() {
            match line_counter(l) {
                Ok(v) => scan_stats(rest, ctx, intr, v, matched + 1),
                Err(e) => StatsScan::Malformed(e),
            }
        } else {
            scan_stats(rest, ctx, intr, soft, matched)
        }
    }
}

/// What reading the whole table yields.
pub open spec fn stats_result(s: Seq<u8>) -> Result<CpuStats, Error> {
    match scan_stats(lines_of(s), 0, 0, 0, 0) {
        StatsScan::Done { ctx, intr, soft } => Ok(
            CpuStats { ctx_switches: ctx, interrupts: intr, soft_interrupts: soft },
        ),
        StatsScan::Malformed(e) => Err(e),
    }
}

fn read_counter(l: &[u8]) -> (r: Result<u64, Error>)
    ensures
        r == line_counter(l@),
{
    let ps = split_parts(l, 32);
    if ps.len() < 2 {
        return Err(Error::MissingKey);
    }
    proof {
        assert(parts_of(l@, 32)[1] == ps@[1]@);
    }
    let t = trim_end(ps[1].as_slice());
    match crate::parse::parse_u64(t.as_slice()) {
        Ok(v) => Ok(v),
        Err(e) => Err(e),
    }
}

impl CpuStats {
    /// Reads the counter table's contents.
    pub fn from_str(s: &[u8]) -> (r: Result<CpuStats, Error>)
        ensures
            r == stats_result(s@),
    {
        let ls = split_lines(s);
        let ghost lv = lines_of(s@);
        let ctxt_kw = "ctxt".as_bytes();
        let intr_kw = "intr".as_bytes();
        let soft_kw = "softirq".as_bytes();
        let mut ctx: u64 = 0;
        let mut intr: u64 = 0;
        let mut soft: u64 = 0;
        let mut matched: u8 = 0;
        let mut i: usize = 0;
        proof {
            assert(lv.subrange(0, lv.len() as int) =~= lv);
        }
        while i < ls.len() && matched < 3
            invariant
                0 <= i <= lv.len(),
                matched <= 3,
                lv == lines_of(s@),
                ls@.map_values(|x: Vec<u8>| x@) == lv,
                ctxt_kw@ == ("ctxt").spec_bytes(),
                intr_kw@ == ("intr").spec_bytes(),
                soft_kw@ == ("softirq").spec_bytes(),
                scan_stats(lv, 0, 0, 0, 0) == scan_stats(
                    lv.subrange(i as int, lv.len() as int),
                    ctx,
                    intr,
                    soft,
                    matched as int,
                ),
            decreases lv.len() - i,
        {
            let ghost rest = lv.subrange(i as int, lv.len() as int);
            proof {
                assert(rest[0] == lv[i as int]);
                assert(ls@[i as int]@ == lv[i as int]);
                assert(rest.subrange(1, rest.len() as int) =~= lv.subrange(
                    i as int + 1,
                    lv.len() as int,
                ));
            }
            let line = ls[i].as_slice();
            let ps = split_parts(line, 32);
            proof {
                crate::parse::lemma_parts_with_nonempty(Seq::empty(), lv[i as int], 32);
                assert(ps@.len() == parts_of(lv[i as int], 32).len());
                assert(line_key(lv[i as int]) == ps@[0]@);
            }
            let key = ps[0].as_slice();
            if bytes_eq(key, ctxt_kw) {
                match read_counter(line) {
                    Ok(v) => {
                        ctx = v;
                        matched = matched + 1;
                    },
                    Err(e) => {
                        return Err(e);
                    },
                }
            } else if bytes_eq(key, intr_kw) {
                match read_counter(line) {
                    Ok(v) => {
                        intr = v;
                        matched = matched + 1;
                    },
                    Err(e) => {
                        return Err(e);
                    },
                }
            } else if bytes_eq(key, soft_kw) {
                match read_counter(line) {
                    Ok(v) => {
                        soft = v;
                        matched = matched + 1;
                    },
                    Err(e) => {
                        return Err(e);
                    },
                }
            }
            i = i + 1;
        }
        proof {
            if i == lv.len() {
                assert(lv.subrange(lv.len() as int, lv.len() as int)
                    =~= Seq::<Seq<u8>>::empty());
            }
        }
        Ok(CpuStats { ctx_switches: ctx, interrupts: intr, soft_interrupts: soft })
    }
}

} // verus!
