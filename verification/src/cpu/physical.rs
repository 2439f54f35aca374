//! Physical CPU counting: distinct core identifiers from the per-core
//! topology files, with the processor inventory's physical-id/core-id
//! pairs as the fallback.

use vstd::prelude::*;

use crate::error::Error;
use crate::parse::{
    digits_value, is_digit, is_prefix, lines_of, parts_of, split_lines, split_parts,
    starts_with, trim, trim_spec, valid_u64, views_of,
};
use vstd::string::StringSliceAdditionalSpecFns;

verus! {

broadcast use vstd::seq_lib::group_seq_properties;

/// The value carried by an inventory line: its third colon-separated
/// piece, trimmed and read as a number.
pub open spec fn line_value(l: Seq<u8>) -> Option<u64> {
    let ps = parts_of(l, ':' as u8);
    if ps.len() >= 3 && valid_u64(trim_spec(ps[2])) {
        Some(digits_value(trim_spec(ps[2])) as u64)
    } else {
        None
    }
}

/// Reads the numeric value of one inventory line.
pub fn parse_line(l: &[u8]) -> (r: Result<u64, Error>)
    ensures
        match r {
            Ok(v) => line_value(l@) == Some(v),
            Err(e) => line_value(l@) is None && e == Error::InvalidData,
        },
{
    let ps = split_parts(l, ':' as u8);
    if ps.len() < 3 {
        return Err(Error::InvalidData);
    }
    proof {
        assert(parts_of(l@, ':' as u8)[2] == ps@[2]@);
    }
    let t = trim(ps[2].as_slice());
    match crate::parse::parse_u64(t.as_slice()) {
        Ok(v) => Ok(v),
        Err(e) => Err(e),
    }
}

/// A directory entry that names one CPU core: the letters "cpu" followed
/// by digits only.
pub open spec fn cpu_mask(name: Seq<u8>) -> bool {
    is_prefix(("cpu").spec_bytes(), name) && forall|i: int|
        ("cpu").spec_bytes().len() <= i < name.len() ==> is_digit(name[i])
}

/// Whether a file name matches the per-core directory mask.
pub fn cpu_match(name: &[u8]) -> (r: bool)
    ensures
        r == cpu_mask(name@),
{
    let p = "cpu".as_bytes();
    if !starts_with(name, p) {
        return false;
    }
    let mut i: usize = p.len();
    while i < name.len()
        invariant
            p@ == ("cpu").spec_bytes(),
            p@.len() <= i <= name@.len(),
            forall|j: int| p@.len() <= j < i ==> is_digit(name@[j]),
        decreases name@.len() - i,
    {
        let b = name[i];
        if b < 48 || b > 57 {
            proof {
                assert(!is_digit(name@[i as int]));
                assert(("cpu").spec_bytes().len() <= i as int);
                assert((i as int) < name@.len());
                assert(!cpu_mask(name@));
            }
            return false;
        }
        i = i + 1;
    }
    true
}

/// Whether every reading parses after trimming.
pub open spec fn readings_parse(rs: Seq<Seq<u8>>) -> bool {
    forall|i: int| 0 <= i < rs.len() ==> valid_u64(trim_spec(#[trigger] rs[i]))
}

/// The core identifiers the readings carry.
pub open spec fn reading_values(rs: Seq<Seq<u8>>) -> Seq<u64> {
    rs.map_values(|r: Seq<u8>| digits_value(trim_spec(r)) as u64)
}

/// What counting over the topology readings yields: the number of
/// distinct core identifiers, an error when a reading is malformed or
/// none were found.
pub open spec fn topology_result(rs: Seq<Seq<u8>>) -> Result<u64, Error> {
    if readings_parse(rs) && rs.len() > 0 {
        Ok(reading_values(rs).to_set().len() as u64)
    } else {
        Err(Error::InvalidData)
    }
}

fn seen_contains(v: &Vec<u64>, x: u64) -> (r: bool)
    ensures
        r == v@.contains(x),
{
    let mut i: usize = 0;
    while i < v.len()
        invariant
            0 <= i <= v@.len(),
            forall|j: int| 0 <= j < i ==> v@[j] != x,
        decreases v@.len() - i,
    {
        if v[i] == x {
            return true;
        }
        i = i + 1;
    }
    false
}

/// Counts the distinct core identifiers among the per-core topology
/// readings.
pub fn topology(readings: &Vec<Vec<u8>>) -> (r: Result<u64, Error>)
    ensures
        r == topology_result(views_of(readings@)),
{
    let ghost rs = views_of(readings@);
    let mut seen: Vec<u64> = Vec::new();
    let mut i: usize = 0;
    proof {
        assert(reading_values(rs.subrange(0, 0)) =~= Seq::<u64>::empty());
        assert(seen@.to_set() =~= reading_values(rs.subrange(0, 0)).to_set());
    }
    while i < readings.len()
        invariant
            0 <= i <= rs.len(),
            rs == views_of(readings@),
            readings_parse(rs.subrange(0, i as int)),
            seen@.no_duplicates(),
            seen@.to_set() == reading_values(rs.subrange(0, i as int)).to_set(),
        decreases rs.len() - i,
    {
        let t = trim(readings[i].as_slice());
        proof {
            assert(rs[i as int] == readings@[i as int]@);
        }
        let v = match crate::parse::parse_u64(t.as_slice()) {
            Ok(v) => v,
            Err(e) => {
                assert(!valid_u64(trim_spec(rs[i as int])));
                return Err(Error::InvalidData);
            },
        };
        let ghost old_seen = seen@;
        if !seen_contains(&seen, v) {
            seen.push(v);
            proof {
                old_seen.lemma_push_to_set_commute(v);
            }
        } else {
            proof {
                assert(old_seen.to_set().contains(v));
                assert(old_seen.to_set().insert(v) =~= old_seen.to_set());
            }
        }
        proof {
            assert(v == digits_value(trim_spec(rs[i as int])) as u64);
            assert(rs.subrange(0, i as int + 1) =~= rs.subrange(0, i as int).push(
                rs[i as int],
            ));
            assert(reading_values(rs.subrange(0, i as int + 1)) =~= reading_values(
                rs.subrange(0, i as int),
            ).push(v));
            reading_values(rs.subrange(0, i as int)).lemma_push_to_set_commute(v);
            assert(seen@.to_set() =~= reading_values(rs.subrange(0, i as int + 1)).to_set());
        }
        i = i + 1;
    }
    proof {
        assert(rs.subrange(0, rs.len() as int) =~= rs);
    }
    if seen.len() == 0 {
        proof {
            if rs.len() > 0 {
                assert(reading_values(rs).to_set().contains(reading_values(rs)[0]));
                assert(seen@.contains(reading_values(rs)[0]));
            }
        }
        return Err(Error::InvalidData);
    }
    proof {
        seen@.unique_seq_to_set();
        if rs.len() == 0 {
            assert(reading_values(rs).to_set() =~= Set::<u64>::empty());
            assert(seen@.to_set().len() == 0);
        }
    }
    Ok(seen.len() as u64)
}

/// What a left-to-right pass over the inventory's lines accumulates: a
/// pending physical id awaiting its core id, and the distinct pairs
/// collected so far.
pub enum InventoryScan {
    /// All lines consumed.
    Finished { pending: Option<u64>, pairs: Set<(u64, u64)> },
    /// A physical-id or core-id line whose value does not parse.
    BadLine,
    /// A physical id with no core id between it and the next physical id,
    /// or a core id with no physical id before it.  The reader does not
    /// accept such an inventory.
    BadOrder,
}

/// Scans inventory lines, pairing each physical id with the core id that
/// follows it.
pub open spec fn scan_inventory(ls: Seq<Seq<u8>>, pending: Option<u64>, pairs: Set<(u64, u64)>) -> InventoryScan
    decreases ls.len(),
{
    if ls.len() == 0 {
        InventoryScan::Finished { pending, pairs }
    } else {
        let l = ls[0];
        let rest = ls.subrange(1, ls.len() as int);
        if is_prefix(("physical id").spec_bytes(), l) {
            match line_value(l) {
                None => InventoryScan::BadLine,
                Some(v) => if pending is Some {
                    InventoryScan::BadOrder
                } else {
                    scan_inventory(rest, Some(v), pairs)
                },
            }
        } else if is_prefix(("core id").spec_bytes(), l) {
            match line_value(l) {
                None => InventoryScan::BadLine,
                Some(v) => match pending {
                    None => InventoryScan::BadOrder,
                    Some(p) => scan_inventory(rest, None, pairs.insert((p, v))),
                },
            }
        } else {
            scan_inventory(rest, pending, pairs)
        }
    }
}

/// What counting over the processor inventory yields: the number of
/// distinct (physical id, core id) pairs, or nothing when the inventory
/// names none, or an error when a counted line is malformed.
pub open spec fn inventory_result(s: Seq<u8>) -> Result<Option<u64>, Error> {
    match scan_inventory(lines_of(s), None, Set::empty()) {
        InventoryScan::Finished { pending, pairs } => Ok(
            if pairs.len() > 0 {
                Some(pairs.len() as u64)
            } else {
                None
            },
        ),
        _ => Err(Error::InvalidData),
    }
}

fn pairs_contain(v: &Vec<(u64, u64)>, x: (u64, u64)) -> (r: bool)
    ensures
        r == v@.contains(x),
{
    let mut i: usize = 0;
    while i < v.len()
        invariant
            0 <= i <= v@.len(),
            forall|j: int| 0 <= j < i ==> v@[j] != x,
        decreases v@.len() - i,
    {
        let (a, b) = v[i];
        if a == x.0 && b == x.1 {
            assert(v@[i as int] == x);
            return true;
        }
        assert(v@[i as int] != x);
        i = i + 1;
    }
    false
}

/// Counts the distinct (physical id, core id) pairs the processor
/// inventory names.  An inventory whose id lines are out of order is not
/// accepted.
pub fn cpu_info(s: &[u8]) -> (r: Result<Option<u64>, Error>)
    requires
        !(scan_inventory(lines_of(s@), None, Set::empty()) is BadOrder),
    ensures
        r == inventory_result(s@),
{
    let ls = split_lines(s);
    let ghost lv = lines_of(s@);
    let phys_kw = "physical id".as_bytes();
    let core_kw = "core id".as_bytes();
    let mut pending: Option<u64> = None;
    let mut seen: Vec<(u64, u64)> = Vec::new();
    let mut i: usize = 0;
    proof {
        assert(lv.subrange(0, lv.len() as int) =~= lv);
        assert(seen@.to_set() =~= Set::<(u64, u64)>::empty());
    }
    while i < ls.len()
        invariant
            0 <= i <= lv.len(),
            lv == lines_of(s@),
            ls@.map_values(|x: Vec<u8>| x@) == lv,
            seen@.no_duplicates(),
            phys_kw@ == ("physical id").spec_bytes(),
            core_kw@ == ("core id").spec_bytes(),
            scan_inventory(lv, None, Set::empty()) == scan_inventory(
                lv.subrange(i as int, lv.len() as int),
                pending,
                seen@.to_set(),
            ),
            !(scan_inventory(lv, None, Set::empty()) is BadOrder),
        decreases lv.len() - i,
    {
        let ghost rest = lv.subrange(i as int, lv.len() as int);
        proof {
            assert(rest[0] == lv[i as int]);
            assert(ls@[i as int]@ == lv[i as int]);
            assert(rest.subrange(1, rest.len() as int) =~= lv.subrange(
                i as int + 1,
                lv.len() as int,
            ));
        }
        let line = ls[i].as_slice();
        proof {
            assert(rest.len() > 0);
        }
        if starts_with(line, phys_kw) {
            proof {
                assert(is_prefix(("physical id").spec_bytes(), rest[0]));
            }
            let v = match parse_line(line) {
                Ok(v) => v,
                Err(e) => {
                    proof {
                        assert(scan_inventory(rest, pending, seen@.to_set())
                            == InventoryScan::BadLine);
                    }
                    return Err(Error::InvalidData);
                },
            };
            proof {
                assert(line_value(rest[0]) == Some(v));
            }
            match pending {
                Some(_) => {
                    proof {
                        assert(scan_inventory(rest, pending, seen@.to_set())
                            == InventoryScan::BadOrder);
                        assert(false);
                    }
                    return Err(Error::InvalidData);
                },
                None => {
                    proof {
                        assert(scan_inventory(rest, pending, seen@.to_set()) == scan_inventory(
                            lv.subrange(i as int + 1, lv.len() as int),
                            Some(v),
                            seen@.to_set(),
                        ));
                    }
                    pending = Some(v);
                },
            }
        } else if starts_with(line, core_kw) {
            proof {
                assert(!is_prefix(("physical id").spec_bytes(), rest[0]));
                assert(is_prefix(("core id").spec_bytes(), rest[0]));
            }
            let v = match parse_line(line) {
                Ok(v) => v,
                Err(e) => {
                    proof {
                        assert(scan_inventory(rest, pending, seen@.to_set())
                            == InventoryScan::BadLine);
                    }
                    return Err(Error::InvalidData);
                },
            };
            proof {
                assert(line_value(rest[0]) == Some(v));
            }
            match pending {
                None => {
                    proof {
                        assert(scan_inventory(rest, pending, seen@.to_set())
                            == InventoryScan::BadOrder);
                        assert(false);
                    }
                    return Err(Error::InvalidData);
                },
                Some(p) => {
                    let ghost old_seen = seen@;
                    if !pairs_contain(&seen, (p, v)) {
                        seen.push((p, v));
                        proof {
                            old_seen.lemma_push_to_set_commute((p, v));
                        }
                    } else {
                        proof {
                            assert(old_seen.to_set().contains((p, v)));
                            assert(old_seen.to_set().insert((p, v)) =~= old_seen.to_set());
                        }
                    }
                    proof {
                        assert(seen@.to_set() =~= old_seen.to_set().insert((p, v)));
                        assert(scan_inventory(rest, Some(p), old_seen.to_set()) == scan_inventory(
                            lv.subrange(i as int + 1, lv.len() as int),
                            None,
                            old_seen.to_set().insert((p, v)),
                        ));
                    }
                    pending = None;
                },
            }
        } else {
            proof {
                assert(!is_prefix(("physical id").spec_bytes(), rest[0]));
                assert(!is_prefix(("core id").spec_bytes(), rest[0]));
                assert(scan_inventory(rest, pending, seen@.to_set()) == scan_inventory(
                    lv.subrange(i as int + 1, lv.len() as int),
                    pending,
                    seen@.to_set(),
                ));
            }
        }
        i = i + 1;
    }
    proof {
        assert(lv.subrange(lv.len() as int, lv.len() as int) =~= Seq::<Seq<u8>>::empty());
        seen@.unique_seq_to_set();
    }
    if seen.len() > 0 {
        Ok(Some(seen.len() as u64))
    } else {
        proof {
            assert(seen@.to_set() =~= Set::<(u64, u64)>::empty());
        }
        Ok(None)
    }
}

/// Returns the amount of physical CPUs: the distinct-core count from the
/// topology readings when they yielded one, else the inventory's pair
/// count; `Ok(None)` when the amount cannot be determined from what was
/// readable.
pub fn physical_count(topology_readings: Option<&Vec<Vec<u8>>>, cpuinfo: Option<&[u8]>) -> (r:
    Result<Option<u64>, Error>)
    requires
        cpuinfo matches Some(c) ==> !(scan_inventory(lines_of(c@), None, Set::empty()) is BadOrder),
    ensures
        match topology_readings {
            Some(rs) => match topology_result(views_of(rs@)) {
                Ok(n) => r == Ok::<Option<u64>, Error>(Some(n)),
                Err(_) => match cpuinfo {
                    Some(c) => r == inventory_result(c@),
                    None => r == Err::<Option<u64>, Error>(Error::MissingKey),
                },
            },
            None => match cpuinfo {
                Some(c) => r == inventory_result(c@),
                None => r == Err::<Option<u64>, Error>(Error::MissingKey),
            },
        },
{
    if let Some(rs) = topology_readings {
        match topology(rs) {
            Ok(n) => {
                return Ok(Some(n));
            },
            Err(_) => {},
        }
    }
    match cpuinfo {
        Some(c) => cpu_info(c),
        None => Err(Error::MissingKey),
    }
}

} // verus!
