//! The file-table platform's process record: one line of the per-process
//! `stat` table, carrying the name, state, parent, accumulated CPU ticks,
//! creation tick count and resident memory of whatever process currently
//! occupies a pid.
//!
//! The record's second column is the process name wrapped in parentheses;
//! the name itself may hold spaces and parentheses, so the name runs from
//! the first opening parenthesis to the last closing one, and the numbered
//! columns follow that.

use vstd::prelude::*;

use crate::error::Error;
use crate::parse::{all_digits, digits_value, fields_of, split_fields};
use crate::process::status::{status_of_state_char, status_from_state_char, Status};
use crate::process::identity::ProcessIdentity;
use crate::process::Pid;
use crate::units::Time;

verus! {

/// Index of the first occurrence of `b` in `s` at or after `i`.
pub open spec fn find_from(s: Seq<u8>, b: u8, i: int) -> Option<int>
    decreases s.len() - i,
{
    if i < 0 || i >= s.len() {
        None
    } else if s[i] == b {
        Some(i)
    } else {
        find_from(s, b, i + 1)
    }
}

/// Index of the last occurrence of `b` in `s` at or before `i`.
pub open spec fn find_back(s: Seq<u8>, b: u8, i: int) -> Option<int>
    decreases i + 1,
{
    if i < 0 || i >= s.len() {
        None
    } else if s[i] == b {
        Some(i)
    } else {
        find_back(s, b, i - 1)
    }
}

proof fn lemma_find_from_skip(s: Seq<u8>, b: u8, k: int, i: int)
    requires
        0 <= k <= i <= s.len(),
        forall|j: int| k <= j < i ==> s[j] != b,
    ensures
        find_from(s, b, k) == find_from(s, b, i),
    decreases i - k,
{
    if k < i {
        lemma_find_from_skip(s, b, k + 1, i);
    }
}

proof fn lemma_find_back_skip(s: Seq<u8>, b: u8, i: int, k: int)
    requires
        -1 <= k <= i < s.len(),
        forall|j: int| k < j <= i ==> s[j] != b,
    ensures
        find_back(s, b, i) == find_back(s, b, k),
    decreases i - k,
{
    if k < i {
        lemma_find_back_skip(s, b, i - 1, k);
    }
}

/// First occurrence of `b` in `s`, scanning forward.
pub fn find_first_byte(s: &[u8], b: u8) -> (r: Option<usize>)
    ensures
        match r {
            Some(i) => i < s@.len() && s@[i as int] == b && find_from(s@, b, 0) == Some(
                i as int,
            ),
            None => find_from(s@, b, 0) is None,
        },
{
    let mut i: usize = 0;
    while i < s.len()
        invariant
            0 <= i <= s@.len(),
            forall|j: int| 0 <= j < i ==> s@[j] != b,
        decreases s@.len() - i,
    {
        if s[i] == b {
            proof {
                lemma_find_from_skip(s@, b, 0, i as int);
            }
            return Some(i);
        }
        i = i + 1;
    }
    proof {
        lemma_find_from_skip(s@, b, 0, s@.len() as int);
    }
    None
}

/// Last occurrence of `b` in `s`, scanning backward.
pub fn find_last_byte(s: &[u8], b: u8) -> (r: Option<usize>)
    ensures
        match r {
            Some(i) => i < s@.len() && s@[i as int] == b && find_back(s@, b, s@.len() - 1)
                == Some(i as int),
            None => find_back(s@, b, s@.len() - 1) is None,
        },
{
    let mut i: usize = s.len();
    while i > 0
        invariant
            0 <= i <= s@.len(),
            forall|j: int| i <= j < s@.len() ==> s@[j] != b,
        decreases i,
    {
        if s[i - 1] == b {
            proof {
                lemma_find_back_skip(s@, b, s@.len() - 1, i as int - 1);
            }
            return Some(i - 1);
        }
        i = i - 1;
    }
    proof {
        if s@.len() > 0 {
            lemma_find_back_skip(s@, b, s@.len() - 1, -1);
        }
    }
    None
}

/// A snapshot of the process currently at a pid, as the file-table
/// platform reports it.  Never mutated by the core; each query produces a
/// fresh record.
#[derive(Clone, Debug, PartialEq, Eq)]
pub struct StatRecord {
    /// The pid the record was read for.
    pub pid: Pid,
    /// Process name (the parenthesised second column), without the
    /// parentheses.
    pub name: Vec<u8>,
    /// One-letter state, decoded.
    pub status: Status,
    /// Parent pid.
    pub ppid: Pid,
    /// Accumulated user-mode CPU time, in clock ticks.
    pub utime_ticks: u64,
    /// Accumulated kernel-mode CPU time, in clock ticks.
    pub stime_ticks: u64,
    /// Process start, in clock ticks after system boot.
    pub starttime_ticks: u64,
    /// Resident set size, in pages.
    pub rss_pages: u64,
}

/// Position of the name's opening parenthesis.
pub open spec fn stat_open(s: Seq<u8>) -> Option<int> {
    find_from(s, '(' as u8, 0)
}

/// Position of the name's closing parenthesis: the last one on the line.
pub open spec fn stat_close(s: Seq<u8>) -> Option<int> {
    find_back(s, ')' as u8, s.len() - 1)
}

/// The columns that follow the closing parenthesis.  Column 0 is the
/// state letter, column 1 the parent pid, columns 11 and 12 the user and
/// kernel tick counts, column 19 the start tick count and column 21 the
/// resident page count.
pub open spec fn stat_tail(s: Seq<u8>) -> Seq<Seq<u8>> {
    fields_of(s.subrange(stat_close(s).unwrap() + 1, s.len() as int))
}

/// A numeric column that fits the given bound.
pub open spec fn numeric_within(f: Seq<u8>, bound: int) -> bool {
    f.len() > 0 && all_digits(f) && digits_value(f) <= bound
}

/// The record line is well formed: both parentheses are present and
/// ordered, and every column the record carries parses within its type.
pub open spec fn stat_well_formed(s: Seq<u8>) -> bool {
    &&& stat_open(s) is Some
    &&& stat_close(s) is Some
    &&& stat_open(s).unwrap() < stat_close(s).unwrap()
    &&& stat_tail(s).len() >= 22
    &&& stat_tail(s)[0].len() == 1
    &&& status_of_state_char(stat_tail(s)[0][0]) is Some
    &&& numeric_within(stat_tail(s)[1], i32::MAX as int)
    &&& numeric_within(stat_tail(s)[11], u64::MAX as int)
    &&& numeric_within(stat_tail(s)[12], u64::MAX as int)
    &&& numeric_within(stat_tail(s)[19], u64::MAX as int)
    &&& numeric_within(stat_tail(s)[21], u64::MAX as int)
}

/// The name between the parentheses.
pub open spec fn stat_name(s: Seq<u8>) -> Seq<u8> {
    s.subrange(stat_open(s).unwrap() + 1, stat_close(s).unwrap())
}

/// Reads one line of the file-table platform's per-process record into a
/// `StatRecord`.  Succeeds exactly on well-formed lines.
pub fn parse_stat(pid: Pid, s: &[u8]) -> (r: Result<StatRecord, Error>)
    ensures
        r is Ok <==> stat_well_formed(s@),
        r matches Ok(rec) ==> {
            &&& rec.pid == pid
            &&& rec.name@ == stat_name(s@)
            &&& Some(rec.status) == status_of_state_char(stat_tail(s@)[0][0])
            &&& rec.ppid == digits_value(stat_tail(s@)[1])
            &&& rec.utime_ticks == digits_value(stat_tail(s@)[11])
            &&& rec.stime_ticks == digits_value(stat_tail(s@)[12])
            &&& rec.starttime_ticks == digits_value(stat_tail(s@)[19])
            &&& rec.rss_pages == digits_value(stat_tail(s@)[21])
        },
        r matches Err(e) ==> e == Error::InvalidData,
{
    let open = match find_first_byte(s, '(' as u8) {
        Some(i) => i,
        None => {
            return Err(Error::InvalidData);
        },
    };
    let close = match find_last_byte(s, ')' as u8) {
        Some(i) => i,
        None => {
            return Err(Error::InvalidData);
        },
    };
    if open >= close {
        return Err(Error::InvalidData);
    }
    let name_slice = vstd::slice::slice_subrange(s, open + 1, close);
    let mut name: Vec<u8> = Vec::new();
    let mut i: usize = 0;
    while i < name_slice.len()
        invariant
            0 <= i <= name_slice@.len(),
            name@ =~= name_slice@.subrange(0, i as int),
        decreases name_slice@.len() - i,
    {
        name.push(name_slice[i]);
        i = i + 1;
    }
    proof {
        assert(name@ =~= stat_name(s@));
    }
    let total = s.len();
    let tail_slice = vstd::slice::slice_subrange(s, close + 1, total);
    let tail = split_fields(tail_slice);
    proof {
        assert(tail@.map_values(|x: Vec<u8>| x@) == stat_tail(s@));
    }
    if tail.len() < 22 {
        proof {
            assert(stat_tail(s@).len() == tail@.len());
        }
        return Err(Error::InvalidData);
    }
    let state_field = &tail[0];
    if state_field.len() != 1 {
        proof {
            assert(stat_tail(s@)[0] == tail@[0]@);
        }
        return Err(Error::InvalidData);
    }
    proof {
        assert(stat_tail(s@)[0] == tail@[0]@);
    }
    let status = match status_from_state_char(state_field[0]) {
        Ok(st) => st,
        Err(e) => {
            return Err(e);
        },
    };
    proof {
        assert(stat_tail(s@)[1] == tail@[1]@);
        assert(stat_tail(s@)[11] == tail@[11]@);
        assert(stat_tail(s@)[12] == tail@[12]@);
        assert(stat_tail(s@)[19] == tail@[19]@);
        assert(stat_tail(s@)[21] == tail@[21]@);
    }
    let ppid_raw = match crate::parse::parse_u64(tail[1].as_slice()) {
        Ok(v) => v,
        Err(e) => {
            return Err(e);
        },
    };
    if ppid_raw > i32::MAX as u64 {
        return Err(Error::InvalidData);
    }
    let utime_ticks = match crate::parse::parse_u64(tail[11].as_slice()) {
        Ok(v) => v,
        Err(e) => {
            return Err(e);
        },
    };
    let stime_ticks = match crate::parse::parse_u64(tail[12].as_slice()) {
        Ok(v) => v,
        Err(e) => {
            return Err(e);
        },
    };
    let starttime_ticks = match crate::parse::parse_u64(tail[19].as_slice()) {
        Ok(v) => v,
        Err(e) => {
            return Err(e);
        },
    };
    let rss_pages = match crate::parse::parse_u64(tail[21].as_slice()) {
        Ok(v) => v,
        Err(e) => {
            return Err(e);
        },
    };
    Ok(StatRecord {
        pid,
        name,
        status,
        ppid: ppid_raw as i32,
        utime_ticks,
        stime_ticks,
        starttime_ticks,
        rss_pages,
    })
}

/// An absolute creation timestamp from the record's start tick count, the
/// absolute boot time and the platform's ticks per second: the file-table
/// platform expresses process start relative to boot.
pub fn created_at_from_ticks(boot: Time, starttime_ticks: u64, ticks_per_sec: u64) -> (t: Time)
    requires
        ticks_per_sec > 0,
        boot.ns + starttime_ticks * 1_000_000_000 / (ticks_per_sec as int) <= u128::MAX,
    ensures
        t.ns == boot.ns + starttime_ticks * 1_000_000_000 / (ticks_per_sec as int),
{
    let offset = Time::from_ticks(starttime_ticks, ticks_per_sec);
    boot.add(offset)
}

/// Derives the identity of the process a record describes (the record is
/// the backend's answer for its pid at one point in time).
pub fn identity_from_stat(rec: &StatRecord, boot: Time, ticks_per_sec: u64) -> (r:
    ProcessIdentity)
    requires
        ticks_per_sec > 0,
        boot.ns + rec.starttime_ticks * 1_000_000_000 / (ticks_per_sec as int) <= u128::MAX,
    ensures
        r.pid == rec.pid,
        r.created_at.ns == boot.ns + rec.starttime_ticks * 1_000_000_000 / (ticks_per_sec as int),
{
    ProcessIdentity { pid: rec.pid, created_at: created_at_from_ticks(boot, rec.starttime_ticks, ticks_per_sec) }
}

} // verus!
