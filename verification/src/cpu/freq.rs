//! CPU frequency records: the per-core current, minimum and maximum
//! scaling frequencies, and their average over all cores.

use vstd::prelude::*;

use crate::error::Error;
use crate::parse::{digits_value, trim_end_spec, valid_u64};
use crate::units::Frequency;

verus! {

/// One core's frequency report.  The minimum and maximum are absent when
/// the platform does not expose them.
#[derive(Clone, Copy, Debug, PartialEq, Eq)]
pub struct CpuFrequency {
    pub current: Frequency,
    pub min: Option<Frequency>,
    pub max: Option<Frequency>,
}

/// The combined value of two optional frequencies: the sum where both are
/// present, the present one where only one is.
pub open spec fn opt_sum(a: Option<Frequency>, b: Option<Frequency>) -> Option<int> {
    match (a, b) {
        (Some(l), Some(r)) => Some(l.khz + r.khz),
        (Some(l), None) => Some(l.khz as int),
        (None, Some(r)) => Some(r.khz as int),
        (None, None) => None,
    }
}

impl CpuFrequency {
    pub fn current(&self) -> (r: Frequency)
        ensures
            r == self.current,
    {
        self.current
    }

    pub fn min(&self) -> (r: Option<Frequency>)
        ensures
            r == self.min,
    {
        self.min
    }

    pub fn max(&self) -> (r: Option<Frequency>)
        ensures
            r == self.max,
    {
        self.max
    }

    /// Pointwise accumulation of two reports: currents add, and each
    /// optional bound combines as `opt_sum` says.
    pub fn add(self, rhs: CpuFrequency) -> (r: CpuFrequency)
        requires
            self.current.khz + rhs.current.khz <= u64::MAX,
            opt_sum(self.min, rhs.min) matches Some(v) ==> v <= u64::MAX,
            opt_sum(self.max, rhs.max) matches Some(v) ==> v <= u64::MAX,
        ensures
            r.current.khz == self.current.khz + rhs.current.khz,
            match r.min {
                Some(f) => opt_sum(self.min, rhs.min) == Some(f.khz as int),
                None => opt_sum(self.min, rhs.min) is None,
            },
            match r.max {
                Some(f) => opt_sum(self.max, rhs.max) == Some(f.khz as int),
                None => opt_sum(self.max, rhs.max) is None,
            },
    {
        let current = Frequency { khz: self.current.khz + rhs.current.khz };
        let min = match (self.min, rhs.min) {
            (Some(left), Some(right)) => Some(Frequency { khz: left.khz + right.khz }),
            (Some(left), None) => Some(left),
            (None, Some(right)) => Some(right),
            (None, None) => None,
        };
        let max = match (self.max, rhs.max) {
            (Some(left), Some(right)) => Some(Frequency { khz: left.khz + right.khz }),
            (Some(left), None) => Some(left),
            (None, Some(right)) => Some(right),
            (None, None) => None,
        };
        CpuFrequency { current, max, min }
    }
}

/// Sum of the cores' current frequencies.
pub open spec fn total_current(s: Seq<CpuFrequency>) -> int
    decreases s.len(),
{
    if s.len() == 0 {
        0
    } else {
        total_current(s.drop_last()) + s.last().current.khz
    }
}

/// Sum of the minima that are present.
pub open spec fn total_min(s: Seq<CpuFrequency>) -> int
    decreases s.len(),
{
    if s.len() == 0 {
        0
    } else {
        total_min(s.drop_last()) + (match s.last().min {
            Some(f) => f.khz as int,
            None => 0,
        })
    }
}

/// Sum of the maxima that are present.
pub open spec fn total_max(s: Seq<CpuFrequency>) -> int
    decreases s.len(),
{
    if s.len() == 0 {
        0
    } else {
        total_max(s.drop_last()) + (match s.last().max {
            Some(f) => f.khz as int,
            None => 0,
        })
    }
}

/// Whether any core reports a minimum.
pub open spec fn any_min(s: Seq<CpuFrequency>) -> bool
    decreases s.len(),
{
    if s.len() == 0 {
        false
    } else {
        any_min(s.drop_last()) || s.last().min is Some
    }
}

/// Whether any core reports a maximum.
pub open spec fn any_max(s: Seq<CpuFrequency>) -> bool
    decreases s.len(),
{
    if s.len() == 0 {
        false
    } else {
        any_max(s.drop_last()) || s.last().max is Some
    }
}

proof fn lemma_totals_nonneg(s: Seq<CpuFrequency>, i: int)
    requires
        0 <= i <= s.len(),
    ensures
        0 <= total_current(s.subrange(0, i)),
        0 <= total_min(s.subrange(0, i)),
        0 <= total_max(s.subrange(0, i)),
    decreases i,
{
    if 0 < i {
        lemma_totals_nonneg(s, i - 1);
        assert(s.subrange(0, i).drop_last() =~= s.subrange(0, i - 1));
    }
}

proof fn lemma_totals_grow(s: Seq<CpuFrequency>, i: int, j: int)
    requires
        0 <= i <= j <= s.len(),
    ensures
        total_current(s.subrange(0, i)) <= total_current(s.subrange(0, j)),
        total_min(s.subrange(0, i)) <= total_min(s.subrange(0, j)),
        total_max(s.subrange(0, i)) <= total_max(s.subrange(0, j)),
    decreases j - i,
{
    if i < j {
        lemma_totals_grow(s, i, j - 1);
        assert(s.subrange(0, j).drop_last() =~= s.subrange(0, j - 1));
    }
}

/// The average of the cores' reports: each total divided by the number of
/// cores, the optional bounds present when any core reported one.  An
/// empty list has no average: that is the error a machine that exposes no
/// per-core files produces.
pub fn average(freqs: &Vec<CpuFrequency>) -> (r: Result<CpuFrequency, Error>)
    requires
        total_current(freqs@) <= u64::MAX,
        total_min(freqs@) <= u64::MAX,
        total_max(freqs@) <= u64::MAX,
    ensures
        freqs@.len() == 0 ==> r == Err::<CpuFrequency, Error>(Error::InvalidData),
        freqs@.len() > 0 ==> (r matches Ok(avg) && {
            &&& avg.current.khz == total_current(freqs@) / freqs@.len() as int
            &&& (any_min(freqs@) ==> (avg.min matches Some(f) && f.khz == total_min(freqs@)
                / freqs@.len() as int))
            &&& (!any_min(freqs@) ==> avg.min is None)
            &&& (any_max(freqs@) ==> (avg.max matches Some(f) && f.khz == total_max(freqs@)
                / freqs@.len() as int))
            &&& (!any_max(freqs@) ==> avg.max is None)
        }),
{
    let mut acc = CpuFrequency { current: Frequency { khz: 0 }, min: None, max: None };
    let mut amount: usize = 0;
    proof {
        assert(freqs@.subrange(0, 0) =~= Seq::<CpuFrequency>::empty());
    }
    while amount < freqs.len()
        invariant
            0 <= amount <= freqs@.len(),
            total_current(freqs@) <= u64::MAX,
            total_min(freqs@) <= u64::MAX,
            total_max(freqs@) <= u64::MAX,
            acc.current.khz == total_current(freqs@.subrange(0, amount as int)),
            acc.min matches Some(f) ==> f.khz == total_min(freqs@.subrange(0, amount as int)),
            acc.min is Some <==> any_min(freqs@.subrange(0, amount as int)),
            acc.min is None ==> total_min(freqs@.subrange(0, amount as int)) == 0,
            acc.max matches Some(f) ==> f.khz == total_max(freqs@.subrange(0, amount as int)),
            acc.max is Some <==> any_max(freqs@.subrange(0, amount as int)),
            acc.max is None ==> total_max(freqs@.subrange(0, amount as int)) == 0,
        decreases freqs@.len() - amount,
    {
        let f = freqs[amount];
        proof {
            lemma_totals_nonneg(freqs@, amount as int);
            lemma_totals_grow(freqs@, amount as int + 1, freqs@.len() as int);
            lemma_totals_nonneg(freqs@, freqs@.len() as int);
            assert(freqs@.subrange(0, freqs@.len() as int) =~= freqs@);
            assert(freqs@.subrange(0, amount as int + 1).drop_last() =~= freqs@.subrange(
                0,
                amount as int,
            ));
            assert(freqs@.subrange(0, amount as int + 1).last() == freqs@[amount as int]);
            if f.min is None {
                assert(total_min(freqs@.subrange(0, amount as int + 1)) == total_min(
                    freqs@.subrange(0, amount as int),
                ));
            }
            if f.max is None {
                assert(total_max(freqs@.subrange(0, amount as int + 1)) == total_max(
                    freqs@.subrange(0, amount as int),
                ));
            }
        }
        acc = acc.add(f);
        amount = amount + 1;
    }
    proof {
        assert(freqs@.subrange(0, freqs@.len() as int) =~= freqs@);
    }
    if amount > 0 {
        let n = amount as u64;
        let current = Frequency { khz: acc.current.khz / n };
        let min = match acc.min {
            Some(f) => Some(Frequency { khz: f.khz / n }),
            None => None,
        };
        let max = match acc.max {
            Some(f) => Some(Frequency { khz: f.khz / n }),
            None => None,
        };
        Ok(CpuFrequency { current, min, max })
    } else {
        Err(Error::InvalidData)
    }
}

/// The per-core frequency reports.  The per-core scaling files are not
/// consulted in this version, so the list is empty.
pub fn frequencies() -> (r: Vec<CpuFrequency>)
    ensures
        r@.len() == 0,
{
    Vec::new()
}

/// The machine-wide frequency: the average over the per-core reports.
/// With no report available it fails, as it does on machines whose
/// virtualised CPUs expose no frequency files.
pub fn frequency() -> (r: Result<CpuFrequency, Error>)
    ensures
        r == Err::<CpuFrequency, Error>(Error::InvalidData),
{
    let freqs = frequencies();
    proof {
        assert(total_current(freqs@) == 0);
        assert(total_min(freqs@) == 0);
        assert(total_max(freqs@) == 0);
    }
    average(&freqs)
}

/// The value of one frequency file: its contents, trailing whitespace
/// removed, read as kilohertz.
pub open spec fn freq_value(s: Seq<u8>) -> Option<int> {
    if valid_u64(trim_end_spec(s)) {
        Some(digits_value(trim_end_spec(s)) as int)
    } else {
        None
    }
}

/// Reads one frequency file's contents.
pub fn read_freq(contents: &[u8]) -> (r: Result<Frequency, Error>)
    ensures
        match r {
            Ok(f) => freq_value(contents@) == Some(f.khz as int),
            Err(_) => freq_value(contents@) is None,
        },
{
    let t = crate::parse::trim_end(contents);
    match crate::parse::parse_u64(t.as_slice()) {
        Ok(v) => Ok(Frequency { khz: v }),
        Err(e) => Err(e),
    }
}

/// One core's current frequency; the file must be present and readable.
pub fn current_freq(contents: Option<&[u8]>) -> (r: Result<Frequency, Error>)
    ensures
        match contents {
            Some(c) => match r {
                Ok(f) => freq_value(c@) == Some(f.khz as int),
                Err(_) => freq_value(c@) is None,
            },
            None => r == Err::<Frequency, Error>(Error::MissingKey),
        },
{
    match contents {
        Some(c) => read_freq(c),
        None => Err(Error::MissingKey),
    }
}

/// One core's maximum frequency; absent or unreadable files simply leave
/// the bound unknown.
pub fn max_freq(contents: Option<&[u8]>) -> (r: Result<Option<Frequency>, Error>)
    ensures
        match contents {
            Some(c) => match freq_value(c@) {
                Some(v) => (r matches Ok(o) && (o matches Some(f) && f.khz == v)),
                None => r == Ok::<Option<Frequency>, Error>(None),
            },
            None => r == Ok::<Option<Frequency>, Error>(None),
        },
{
    match contents {
        Some(c) => match read_freq(c) {
            Ok(f) => Ok(Some(f)),
            Err(_) => Ok(None),
        },
        None => Ok(None),
    }
}

/// One core's minimum frequency; absent or unreadable files simply leave
/// the bound unknown.
pub fn min_freq(contents: Option<&[u8]>) -> (r: Result<Option<Frequency>, Error>)
    ensures
        match contents {
            Some(c) => match freq_value(c@) {
                Some(v) => (r matches Ok(o) && (o matches Some(f) && f.khz == v)),
                None => r == Ok::<Option<Frequency>, Error>(None),
            },
            None => r == Ok::<Option<Frequency>, Error>(None),
        },
{
    match contents {
        Some(c) => match read_freq(c) {
            Ok(f) => Ok(Some(f)),
            Err(_) => Ok(None),
        },
        None => Ok(None),
    }
}

} // verus!
