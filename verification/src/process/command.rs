//! A process's command line and environment, parsed from the
//! NUL-separated blocks the file-table platform reports.

use vstd::prelude::*;

use crate::parse::{parts_of, split_parts, views_of};
use crate::process::record::{find_first_byte, find_from};

verus! {

/// The NUL-separated entries of a block.  A trailing NUL terminates the
/// last entry rather than opening an empty one; an empty block has no
/// entries.
pub open spec fn args_of(s: Seq<u8>) -> Seq<Seq<u8>> {
    if s.len() == 0 {
        Seq::empty()
    } else if s.last() == 0 {
        parts_of(s.drop_last(), 0)
    } else {
        parts_of(s, 0)
    }
}

/// Splits a raw command-line block into its arguments.
pub fn command(raw: &[u8]) -> (r: Vec<Vec<u8>>)
    ensures
        views_of(r@) == args_of(raw@),
{
    if raw.len() == 0 {
        let out: Vec<Vec<u8>> = Vec::new();
        proof {
            assert(views_of(out@) =~= args_of(raw@));
        }
        return out;
    }
    let n = raw.len();
    if raw[n - 1] == 0 {
        let t = vstd::slice::slice_subrange(raw, 0, n - 1);
        proof {
            assert(t@ =~= raw@.drop_last());
        }
        split_parts(t, 0)
    } else {
        split_parts(raw, 0)
    }
}

/// The key/value pairs among the entries: each entry holding an equals
/// sign yields the text before its first one and the text after; an
/// entry without one is skipped.
pub open spec fn env_pairs_of(vars: Seq<Seq<u8>>) -> Seq<(Seq<u8>, Seq<u8>)>
    decreases vars.len(),
{
    if vars.len() == 0 {
        Seq::empty()
    } else {
        env_pairs_of(vars.drop_last()) + (match find_from(vars.last(), '=' as u8, 0) {
            Some(k) => seq![
                (vars.last().subrange(0, k), vars.last().subrange(k + 1, vars.last().len() as int)),
            ],
            None => Seq::empty(),
        })
    }
}

/// The views of the byte-vector pairs in `v`.
pub open spec fn pair_views_of(v: Seq<(Vec<u8>, Vec<u8>)>) -> Seq<(Seq<u8>, Seq<u8>)> {
    v.map_values(|p: (Vec<u8>, Vec<u8>)| (p.0@, p.1@))
}

/// Splits a raw environment block into its variables' key/value pairs.
pub fn environment(raw: &[u8]) -> (r: Vec<(Vec<u8>, Vec<u8>)>)
    ensures
        pair_views_of(r@) == env_pairs_of(args_of(raw@)),
{
    let vars = command(raw);
    let ghost vv = args_of(raw@);
    let mut out: Vec<(Vec<u8>, Vec<u8>)> = Vec::new();
    let mut i: usize = 0;
    proof {
        assert(env_pairs_of(vv.subrange(0, 0)) =~= Seq::<(Seq<u8>, Seq<u8>)>::empty());
        assert(pair_views_of(out@) =~= env_pairs_of(vv.subrange(0, 0)));
    }
    while i < vars.len()
        invariant
            0 <= i <= vv.len(),
            vv == args_of(raw@),
            vars@.map_values(|x: Vec<u8>| x@) == vv,
            pair_views_of(out@) == env_pairs_of(vv.subrange(0, i as int)),
        decreases vv.len() - i,
    {
        proof {
            assert(vv.subrange(0, i as int + 1).drop_last() =~= vv.subrange(0, i as int));
            assert(vv.subrange(0, i as int + 1).last() == vv[i as int]);
            assert(vars@[i as int]@ == vv[i as int]);
        }
        let var = vars[i].as_slice();
        match find_first_byte(var, '=' as u8) {
            Some(k) => {
                let total = var.len();
                let key_slice = vstd::slice::slice_subrange(var, 0, k);
                let val_slice = vstd::slice::slice_subrange(var, k + 1, total);
                let mut key: Vec<u8> = Vec::new();
                let mut j: usize = 0;
                while j < key_slice.len()
                    invariant
                        0 <= j <= key_slice@.len(),
                        key@ =~= key_slice@.subrange(0, j as int),
                    decreases key_slice@.len() - j,
                {
                    key.push(key_slice[j]);
                    j = j + 1;
                }
                let mut val: Vec<u8> = Vec::new();
                let mut j2: usize = 0;
                while j2 < val_slice.len()
                    invariant
                        0 <= j2 <= val_slice@.len(),
                        val@ =~= val_slice@.subrange(0, j2 as int),
                    decreases val_slice@.len() - j2,
                {
                    val.push(val_slice[j2]);
                    j2 = j2 + 1;
                }
                let ghost old_out = out@;
                proof {
                    assert(key@ =~= vv[i as int].subrange(0, k as int));
                    assert(val@ =~= vv[i as int].subrange(k + 1, vv[i as int].len() as int));
                }
                out.push((key, val));
                proof {
                    assert(pair_views_of(out@) =~= pair_views_of(old_out) + seq![
                        (
                            vv[i as int].subrange(0, k as int),
                            vv[i as int].subrange(k + 1, vv[i as int].len() as int),
                        ),
                    ]);
                    assert(pair_views_of(out@) =~= env_pairs_of(vv.subrange(0, i as int + 1)));
                }
            },
            None => {
                proof {
                    assert(pair_views_of(out@) =~= env_pairs_of(vv.subrange(0, i as int + 1)));
                }
            },
        }
        i = i + 1;
    }
    proof {
        assert(vv.subrange(0, vv.len() as int) =~= vv);
    }
    out
}

} // verus!
