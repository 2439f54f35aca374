//! Host readers: time since boot, and the absolute wall-clock time of the
//! boot itself, the collaborator the tick-based process backend needs to
//! turn relative creation times into absolute ones.

use vstd::prelude::*;

use crate::error::Error;
use crate::parse::{
    all_digits, digits_value, is_prefix, lemma_digits_value_len_bound, lines_of, parts_of,
    split_lines, split_parts, starts_with, ten_pow, valid_u64,
};
use crate::units::Time;
use vstd::string::StringSliceAdditionalSpecFns;

verus! {

/// Nanoseconds per unit in the `k`-th place after the decimal point; zero
/// for fractions finer than the nanosecond.
pub open spec fn frac_scale(len: int) -> int {
    if len == 1 {
        100_000_000
    } else if len == 2 {
        10_000_000
    } else if len == 3 {
        1_000_000
    } else if len == 4 {
        100_000
    } else if len == 5 {
        10_000
    } else if len == 6 {
        1_000
    } else if len == 7 {
        100
    } else if len == 8 {
        10
    } else if len == 9 {
        1
    } else {
        0
    }
}

/// The span a decimal-seconds string denotes, in nanoseconds: whole
/// seconds, optionally a dot and up to nine fraction digits.
pub open spec fn decimal_seconds_ns(s: Seq<u8>) -> Option<int> {
    let ps = parts_of(s, '.' as u8);
    if ps.len() == 1 && valid_u64(ps[0]) {
        Some((digits_value(ps[0]) as int) * 1_000_000_000)
    } else if ps.len() == 2 && valid_u64(ps[0]) && ps[1].len() >= 1 && ps[1].len() <= 9
        && all_digits(ps[1]) {
        Some(
            (digits_value(ps[0]) as int) * 1_000_000_000 + (digits_value(ps[1]) as int)
                * frac_scale(ps[1].len() as int),
        )
    } else {
        None
    }
}

proof fn lemma_ten_pow_nine_bound(n: nat)
    requires
        n <= 9,
    ensures
        ten_pow(n) <= 1_000_000_000,
{
    reveal_with_fuel(ten_pow, 11);
    if n == 0 {
    } else if n == 1 {
    } else if n == 2 {
    } else if n == 3 {
    } else if n == 4 {
    } else if n == 5 {
    } else if n == 6 {
    } else if n == 7 {
    } else if n == 8 {
    } else {
        assert(n == 9);
    }
}

/// Reads a decimal count of seconds ("12345.67") as a span.
pub fn parse_seconds(s: &[u8]) -> (r: Result<Time, Error>)
    ensures
        match r {
            Ok(t) => decimal_seconds_ns(s@) == Some(t.ns as int),
            Err(e) => decimal_seconds_ns(s@) is None && e == Error::InvalidData,
        },
{
    let ps = split_parts(s, '.' as u8);
    proof {
        crate::parse::lemma_parts_with_nonempty(Seq::empty(), s@, '.' as u8);
        assert(ps@.len() == parts_of(s@, '.' as u8).len());
        assert(ps@[0]@ == parts_of(s@, '.' as u8)[0]);
    }
    if ps.len() == 1 {
        match crate::parse::parse_u64(ps[0].as_slice()) {
            Ok(v) => Ok(Time { ns: (v as u128) * 1_000_000_000 }),
            Err(_) => Err(Error::InvalidData),
        }
    } else if ps.len() == 2 {
        proof {
            assert(ps@[1]@ == parts_of(s@, '.' as u8)[1]);
        }
        let secs = match crate::parse::parse_u64(ps[0].as_slice()) {
            Ok(v) => v,
            Err(_) => {
                proof {
                    assert(!valid_u64(parts_of(s@, '.' as u8)[0]));
                }
                return Err(Error::InvalidData);
            },
        };
        let frac = &ps[1];
        if frac.len() < 1 || frac.len() > 9 {
            return Err(Error::InvalidData);
        }
        let fv = match crate::parse::parse_u64(frac.as_slice()) {
            Ok(v) => v,
            Err(_) => {
                proof {
                    if all_digits(frac@) && frac@.len() > 0 {
                        lemma_digits_value_len_bound(frac@);
                        lemma_ten_pow_nine_bound(frac@.len());
                        assert(false);
                    }
                }
                return Err(Error::InvalidData);
            },
        };
        let scale: u64 = if frac.len() == 1 {
            100_000_000
        } else if frac.len() == 2 {
            10_000_000
        } else if frac.len() == 3 {
            1_000_000
        } else if frac.len() == 4 {
            100_000
        } else if frac.len() == 5 {
            10_000
        } else if frac.len() == 6 {
            1_000
        } else if frac.len() == 7 {
            100
        } else if frac.len() == 8 {
            10
        } else {
            1
        };
        proof {
            assert((fv as u128) * (scale as u128) <= 0xffff_ffff_ffff_ffffu128
                * 100_000_000u128) by (nonlinear_arith)
                requires
                    fv <= 0xffff_ffff_ffff_ffffu64,
                    scale <= 100_000_000u64,
            ;
        }
        Ok(Time { ns: (secs as u128) * 1_000_000_000 + (fv as u128) * (scale as u128) })
    } else {
        Err(Error::InvalidData)
    }
}

/// Time since boot: the first space-separated piece of the uptime file,
/// in decimal seconds.
pub fn uptime(contents: &[u8]) -> (r: Result<Time, Error>)
    ensures
        match r {
            Ok(t) => decimal_seconds_ns(parts_of(contents@, 32)[0]) == Some(t.ns as int),
            Err(e) => decimal_seconds_ns(parts_of(contents@, 32)[0]) is None,
        },
{
    let ps = split_parts(contents, 32);
    proof {
        crate::parse::lemma_parts_with_nonempty(Seq::empty(), contents@, 32);
        assert(ps@.len() == parts_of(contents@, 32).len());
        assert(ps@[0]@ == parts_of(contents@, 32)[0]);
    }
    parse_seconds(ps[0].as_slice())
}

/// Index of the first line that begins with `p`.
pub open spec fn first_with_prefix(ls: Seq<Seq<u8>>, p: Seq<u8>, i: int) -> Option<int>
    decreases ls.len() - i,
{
    if i < 0 || i >= ls.len() {
        None
    } else if is_prefix(p, ls[i]) {
        Some(i)
    } else {
        first_with_prefix(ls, p, i + 1)
    }
}

proof fn lemma_first_with_prefix_skip(ls: Seq<Seq<u8>>, p: Seq<u8>, k: int, i: int)
    requires
        0 <= k <= i <= ls.len(),
        forall|j: int| k <= j < i ==> !is_prefix(p, ls[j]),
    ensures
        first_with_prefix(ls, p, k) == first_with_prefix(ls, p, i),
    decreases i - k,
{
    if k < i {
        lemma_first_with_prefix_skip(ls, p, k + 1, i);
    }
}

/// The boot-time line's value: what follows "btime " on the first line
/// that carries that key, read as whole seconds.
pub open spec fn boot_time_result(s: Seq<u8>) -> Result<Time, Error> {
    let ls = lines_of(s);
    match first_with_prefix(ls, ("btime ").spec_bytes(), 0) {
        Some(i) => {
            let v = ls[i].skip(("btime ").spec_bytes().len() as int);
            if valid_u64(v) {
                Ok(Time { ns: ((digits_value(v) as int) * 1_000_000_000) as u128 })
            } else {
                Err(Error::InvalidData)
            }
        },
        None => Err(Error::MissingKey),
    }
}

/// The absolute wall-clock time of system boot, read from the kernel
/// counter table's boot-time line.
pub fn boot_time(contents: &[u8]) -> (r: Result<Time, Error>)
    ensures
        r == boot_time_result(contents@),
{
    let ls = split_lines(contents);
    let ghost lv = lines_of(contents@);
    let kw = "btime ".as_bytes();
    let mut i: usize = 0;
    while i < ls.len()
        invariant
            0 <= i <= lv.len(),
            lv == lines_of(contents@),
            ls@.map_values(|x: Vec<u8>| x@) == lv,
            kw@ == ("btime ").spec_bytes(),
            forall|j: int| 0 <= j < i ==> !is_prefix(("btime ").spec_bytes(), lv[j]),
        decreases lv.len() - i,
    {
        proof {
            assert(ls@[i as int]@ == lv[i as int]);
        }
        let line = ls[i].as_slice();
        if starts_with(line, kw) {
            proof {
                lemma_first_with_prefix_skip(lv, kw@, 0, i as int);
                assert(first_with_prefix(lv, ("btime ").spec_bytes(), 0) == Some(i as int));
            }
            let rest = vstd::slice::slice_subrange(line, kw.len(), line.len());
            proof {
                assert(rest@ =~= lv[i as int].skip(("btime ").spec_bytes().len() as int));
            }
            match crate::parse::parse_u64(rest) {
                Ok(v) => {
                    return Ok(Time { ns: (v as u128) * 1_000_000_000 });
                },
                Err(_) => {
                    return Err(Error::InvalidData);
                },
            }
        }
        i = i + 1;
    }
    proof {
        lemma_first_with_prefix_skip(lv, kw@, 0, lv.len() as int);
    }
    Err(Error::MissingKey)
}

} // verus!
