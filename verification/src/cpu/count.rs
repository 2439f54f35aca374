//! Logical and physical CPU counts, decided from whichever sources the
//! runtime could read: the kernel's own report, the processor inventory
//! file, and the kernel counter table.

use vstd::prelude::*;

use crate::error::Error;
use crate::parse::{is_prefix, lines_of, split_lines, starts_with};
use vstd::string::StringSliceAdditionalSpecFns;

verus! {

/// How many of the lines start with prefix `p`.
pub open spec fn count_matching(ls: Seq<Seq<u8>>, p: Seq<u8>) -> nat
    decreases ls.len(),
{
    if ls.len() == 0 {
        0
    } else {
        count_matching(ls.drop_last(), p) + (if is_prefix(p, ls.last()) {
            1nat
        } else {
            0nat
        })
    }
}

/// The lines after the first `k`; all of them gone when there are fewer.
pub open spec fn skip_lines(ls: Seq<Seq<u8>>, k: int) -> Seq<Seq<u8>> {
    if 0 <= k <= ls.len() {
        ls.skip(k)
    } else {
        Seq::empty()
    }
}

proof fn lemma_count_matching_bound(ls: Seq<Seq<u8>>, p: Seq<u8>)
    ensures
        count_matching(ls, p) <= ls.len(),
    decreases ls.len(),
{
    if ls.len() > 0 {
        lemma_count_matching_bound(ls.drop_last(), p);
    }
}

/// Counts the lines of `s` that begin with prefix `p`, skipping the first
/// `skip` lines.
fn count_lines_with_prefix(s: &[u8], p: &[u8], skip: usize) -> (n: u64)
    ensures
        n == count_matching(skip_lines(lines_of(s@), skip as int), p@),
{
    let ls = split_lines(s);
    let mut n: u64 = 0;
    let mut i: usize = skip;
    if i > ls.len() {
        proof {
            assert(skip_lines(lines_of(s@), skip as int) =~= Seq::<Seq<u8>>::empty());
        }
        return 0;
    }
    proof {
        assert(skip_lines(lines_of(s@), skip as int).subrange(0, 0) =~= Seq::<Seq<u8>>::empty());
    }
    while i < ls.len()
        invariant
            skip <= i <= ls@.len(),
            ls@.map_values(|x: Vec<u8>| x@) == lines_of(s@),
            n == count_matching(
                skip_lines(lines_of(s@), skip as int).subrange(0, i - skip),
                p@,
            ),
            n <= i - skip,
        decreases ls@.len() - i,
    {
        let ghost done = skip_lines(lines_of(s@), skip as int).subrange(0, i - skip);
        let ghost next = skip_lines(lines_of(s@), skip as int).subrange(0, i + 1 - skip);
        proof {
            assert(next.drop_last() =~= done);
            assert(next.last() == lines_of(s@)[i as int]);
            assert(ls@[i as int]@ == lines_of(s@)[i as int]);
        }
        if starts_with(ls[i].as_slice(), p) {
            n = n + 1;
        }
        i = i + 1;
    }
    proof {
        assert(skip_lines(lines_of(s@), skip as int).subrange(
            0,
            lines_of(s@).len() - skip,
        ) =~= skip_lines(lines_of(s@), skip as int));
    }
    n
}

/// The logical count read from the processor inventory file: one line per
/// processor, each opening with the word "processor".
pub fn logical_count_from_cpuinfo(s: &[u8]) -> (n: u64)
    ensures
        n == count_matching(lines_of(s@), ("processor").spec_bytes()),
{
    let p = "processor".as_bytes();
    let n = count_lines_with_prefix(s, p, 0);
    proof {
        assert(skip_lines(lines_of(s@), 0) =~= lines_of(s@));
    }
    n
}

/// The logical count read from the kernel counter table: one "cpu"-opened
/// line per processor, after the first line, which aggregates them all.
pub fn logical_count_from_stat(s: &[u8]) -> (n: u64)
    ensures
        n == count_matching(skip_lines(lines_of(s@), 1), ("cpu").spec_bytes()),
{
    let p = "cpu".as_bytes();
    count_lines_with_prefix(s, p, 1)
}

/// What the logical count is, given the three sources in falling order of
/// preference: the kernel's direct report, then the processor inventory,
/// then the counter table.  `None` stands for a source the runtime could
/// not read.
pub open spec fn logical_count_spec(
    kernel_report: Option<u64>,
    cpuinfo: Option<Seq<u8>>,
    stat: Option<Seq<u8>>,
) -> Result<u64, Error> {
    match kernel_report {
        Some(v) => Ok(v),
        None => match cpuinfo {
            Some(c) => Ok(count_matching(lines_of(c), ("processor").spec_bytes()) as u64),
            None => match stat {
                Some(t) => Ok(count_matching(skip_lines(lines_of(t), 1), ("cpu").spec_bytes()) as u64),
                None => Err(Error::MissingKey),
            },
        },
    }
}

/// Returns the amount of logical CPUs, trying each source in turn.
pub fn logical_count(kernel_report: Option<u64>, cpuinfo: Option<&[u8]>, stat: Option<&[u8]>) -> (r:
    Result<u64, Error>)
    ensures
        r == logical_count_spec(
            kernel_report,
            match cpuinfo {
                Some(c) => Some(c@),
                None => None,
            },
            match stat {
                Some(t) => Some(t@),
                None => None,
            },
        ),
{
    match kernel_report {
        Some(v) => Ok(v),
        None => match cpuinfo {
            Some(c) => {
                proof {
                    lemma_count_matching_bound(lines_of(c@), ("processor").spec_bytes());
                }
                Ok(logical_count_from_cpuinfo(c))
            },
            None => match stat {
                Some(t) => {
                    proof {
                        lemma_count_matching_bound(skip_lines(lines_of(t@), 1), ("cpu").spec_bytes());
                    }
                    Ok(logical_count_from_stat(t))
                },
                None => Err(Error::MissingKey),
            },
        },
    }
}

} // verus!
