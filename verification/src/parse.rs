//! Byte-level helpers shared by the tabular readers: splitting system-file
//! contents into lines and whitespace-separated fields, and reading unsigned
//! decimal numbers.

use vstd::prelude::*;

use crate::error::Error;

verus! {

/// An ASCII decimal digit.
pub open spec fn is_digit(b: u8) -> bool {
    48 <= b <= 57
}

pub open spec fn digit_val(b: u8) -> nat {
    (b - 48) as nat
}

pub open spec fn all_digits(s: Seq<u8>) -> bool {
    forall|i: int| 0 <= i < s.len() ==> is_digit(s[i])
}

/// Value of a digit string read in base ten.
pub open spec fn digits_value(s: Seq<u8>) -> nat
    decreases s.len(),
{
    if s.len() == 0 {
        0
    } else {
        digits_value(s.drop_last()) * 10 + digit_val(s.last())
    }
}

proof fn lemma_digits_value_prefix_le(s: Seq<u8>, i: int, j: int)
    requires
        0 <= i <= j <= s.len(),
    ensures
        digits_value(s.subrange(0, i)) <= digits_value(s.subrange(0, j)),
    decreases j - i,
{
    if i < j {
        lemma_digits_value_prefix_le(s, i, j - 1);
        assert(s.subrange(0, j).drop_last() =~= s.subrange(0, j - 1));
    }
}

/// Reads a non-empty, all-digit byte string as a base-ten `u64`.
pub fn parse_u64(s: &[u8]) -> (r: Result<u64, Error>)
    ensures
        match r {
            Ok(v) => s@.len() > 0 && all_digits(s@) && v == digits_value(s@),
            Err(e) => e == Error::InvalidData && (s@.len() == 0 || !all_digits(s@)
                || digits_value(s@) > u64::MAX),
        },
{
    if s.len() == 0 {
        return Err(Error::InvalidData);
    }
    let mut acc: u64 = 0;
    let mut i: usize = 0;
    while i < s.len()
        invariant
            0 <= i <= s@.len(),
            all_digits(s@.subrange(0, i as int)),
            acc == digits_value(s@.subrange(0, i as int)),
        decreases s@.len() - i,
    {
        let b = s[i];
        if b < 48 || b > 57 {
            assert(!is_digit(s@[i as int]));
            return Err(Error::InvalidData);
        }
        let d: u64 = (b - 48) as u64;
        proof {
            assert(s@.subrange(0, i as int + 1).drop_last() =~= s@.subrange(0, i as int));
        }
        if acc > (u64::MAX - d) / 10 {
            proof {
                lemma_digits_value_prefix_le(s@, i as int + 1, s@.len() as int);
                assert(s@.subrange(0, s@.len() as int) =~= s@);
            }
            return Err(Error::InvalidData);
        }
        acc = acc * 10 + d;
        i = i + 1;
    }
    proof {
        assert(s@.subrange(0, s@.len() as int) =~= s@);
    }
    Ok(acc)
}

/// A byte that separates fields on one line: space or horizontal tab.
pub open spec fn is_space(b: u8) -> bool {
    b == 32 || b == 9
}

/// The lines of `s`, split at newline bytes, with `cur` the partial line
/// carried in from the left.  A trailing newline does not open a final
/// empty line.
pub open spec fn lines_with(cur: Seq<u8>, s: Seq<u8>) -> Seq<Seq<u8>>
    decreases s.len(),
{
    if s.len() == 0 {
        if cur.len() == 0 {
            Seq::empty()
        } else {
            seq![cur]
        }
    } else if s[0] == 10 {
        seq![cur] + lines_with(Seq::empty(), s.subrange(1, s.len() as int))
    } else {
        lines_with(cur.push(s[0]), s.subrange(1, s.len() as int))
    }
}

/// The lines of `s`.
pub open spec fn lines_of(s: Seq<u8>) -> Seq<Seq<u8>> {
    lines_with(Seq::empty(), s)
}

/// The whitespace-separated fields of `s`, with `cur` the partial field
/// carried in from the left.  Runs of separators collapse; no field is
/// empty.
pub open spec fn fields_with(cur: Seq<u8>, s: Seq<u8>) -> Seq<Seq<u8>>
    decreases s.len(),
{
    if s.len() == 0 {
        if cur.len() == 0 {
            Seq::empty()
        } else {
            seq![cur]
        }
    } else if is_space(s[0]) {
        if cur.len() == 0 {
            fields_with(Seq::empty(), s.subrange(1, s.len() as int))
        } else {
            seq![cur] + fields_with(Seq::empty(), s.subrange(1, s.len() as int))
        }
    } else {
        fields_with(cur.push(s[0]), s.subrange(1, s.len() as int))
    }
}

/// The whitespace-separated fields of `s`.
pub open spec fn fields_of(s: Seq<u8>) -> Seq<Seq<u8>> {
    fields_with(Seq::empty(), s)
}

/// The views of the byte vectors in `v`.
pub open spec fn views_of(v: Seq<Vec<u8>>) -> Seq<Seq<u8>> {
    v.map_values(|x: Vec<u8>| x@)
}

/// Splits contents into lines at newline bytes.
pub fn split_lines(s: &[u8]) -> (r: Vec<Vec<u8>>)
    ensures
        views_of(r@) == lines_of(s@),
{
    let mut out: Vec<Vec<u8>> = Vec::new();
    let mut cur: Vec<u8> = Vec::new();
    let mut i: usize = 0;
    proof {
        assert(s@.subrange(0, s@.len() as int) =~= s@);
        assert(views_of(out@) + lines_with(cur@, s@) =~= lines_with(cur@, s@));
    }
    while i < s.len()
        invariant
            0 <= i <= s@.len(),
            lines_of(s@) == views_of(out@) + lines_with(cur@, s@.subrange(i as int, s@.len() as int)),
        decreases s@.len() - i,
    {
        let ghost rest = s@.subrange(i as int, s@.len() as int);
        let ghost rest1 = s@.subrange(i as int + 1, s@.len() as int);
        proof {
            assert(rest.subrange(1, rest.len() as int) =~= rest1);
        }
        let b = s[i];
        if b == 10 {
            let ghost old_out = out@;
            let ghost old_cur = cur@;
            out.push(cur);
            cur = Vec::new();
            proof {
                assert(lines_with(old_cur, rest) == seq![old_cur] + lines_with(cur@, rest1));
                assert(views_of(out@) =~= views_of(old_out) + seq![old_cur]);
                assert(views_of(old_out) + (seq![old_cur] + lines_with(cur@, rest1)) =~= (
                views_of(old_out) + seq![old_cur]) + lines_with(cur@, rest1));
            }
        } else {
            cur.push(b);
        }
        i = i + 1;
    }
    proof {
        assert(s@.subrange(s@.len() as int, s@.len() as int) =~= Seq::<u8>::empty());
    }
    if cur.len() > 0 {
        let ghost old_out = out@;
        let ghost old_cur = cur@;
        out.push(cur);
        proof {
            assert(views_of(out@) =~= views_of(old_out) + seq![old_cur]);
        }
    } else {
        proof {
            assert(views_of(out@) + Seq::<Seq<u8>>::empty() =~= views_of(out@));
        }
    }
    out
}

/// Splits contents into whitespace-separated fields.
pub fn split_fields(s: &[u8]) -> (r: Vec<Vec<u8>>)
    ensures
        views_of(r@) == fields_of(s@),
{
    let mut out: Vec<Vec<u8>> = Vec::new();
    let mut cur: Vec<u8> = Vec::new();
    let mut i: usize = 0;
    proof {
        assert(s@.subrange(0, s@.len() as int) =~= s@);
        assert(views_of(out@) + fields_with(cur@, s@) =~= fields_with(cur@, s@));
    }
    while i < s.len()
        invariant
            0 <= i <= s@.len(),
            fields_of(s@) == views_of(out@) + fields_with(
                cur@,
                s@.subrange(i as int, s@.len() as int),
            ),
        decreases s@.len() - i,
    {
        let ghost rest = s@.subrange(i as int, s@.len() as int);
        let ghost rest1 = s@.subrange(i as int + 1, s@.len() as int);
        proof {
            assert(rest.subrange(1, rest.len() as int) =~= rest1);
        }
        let b = s[i];
        if b == 32 || b == 9 {
            if cur.len() > 0 {
                let ghost old_out = out@;
                let ghost old_cur = cur@;
                out.push(cur);
                cur = Vec::new();
                proof {
                    assert(fields_with(old_cur, rest) == seq![old_cur] + fields_with(cur@, rest1));
                    assert(views_of(out@) =~= views_of(old_out) + seq![old_cur]);
                    assert(views_of(old_out) + (seq![old_cur] + fields_with(cur@, rest1)) =~= (
                    views_of(old_out) + seq![old_cur]) + fields_with(cur@, rest1));
                }
            } else {
                proof {
                    assert(cur@ =~= Seq::<u8>::empty());
                }
            }
        } else {
            cur.push(b);
        }
        i = i + 1;
    }
    proof {
        assert(s@.subrange(s@.len() as int, s@.len() as int) =~= Seq::<u8>::empty());
    }
    if cur.len() > 0 {
        let ghost old_out = out@;
        let ghost old_cur = cur@;
        out.push(cur);
        proof {
            assert(views_of(out@) =~= views_of(old_out) + seq![old_cur]);
        }
    } else {
        proof {
            assert(views_of(out@) + Seq::<Seq<u8>>::empty() =~= views_of(out@));
        }
    }
    out
}

/// The parts of `s` split at every occurrence of `sep`, with `cur` the
/// partial part carried in from the left.  Every part is kept, empty ones
/// included, so splitting always yields one part more than there are
/// separators.
pub open spec fn parts_with(cur: Seq<u8>, s: Seq<u8>, sep: u8) -> Seq<Seq<u8>>
    decreases s.len(),
{
    if s.len() == 0 {
        seq![cur]
    } else if s[0] == sep {
        seq![cur] + parts_with(Seq::empty(), s.subrange(1, s.len() as int), sep)
    } else {
        parts_with(cur.push(s[0]), s.subrange(1, s.len() as int), sep)
    }
}

/// The parts of `s` split at `sep`.
pub open spec fn parts_of(s: Seq<u8>, sep: u8) -> Seq<Seq<u8>> {
    parts_with(Seq::empty(), s, sep)
}

/// Splitting yields at least one part, however `s` looks.
pub proof fn lemma_parts_with_nonempty(cur: Seq<u8>, s: Seq<u8>, sep: u8)
    ensures
        parts_with(cur, s, sep).len() >= 1,
    decreases s.len(),
{
    if s.len() > 0 && s[0] != sep {
        lemma_parts_with_nonempty(cur.push(s[0]), s.subrange(1, s.len() as int), sep);
    }
}

/// Splits contents at every occurrence of one byte, keeping empty parts.
pub fn split_parts(s: &[u8], sep: u8) -> (r: Vec<Vec<u8>>)
    ensures
        views_of(r@) == parts_of(s@, sep),
{
    let mut out: Vec<Vec<u8>> = Vec::new();
    let mut cur: Vec<u8> = Vec::new();
    let mut i: usize = 0;
    proof {
        assert(s@.subrange(0, s@.len() as int) =~= s@);
        assert(views_of(out@) + parts_with(cur@, s@, sep) =~= parts_with(cur@, s@, sep));
    }
    while i < s.len()
        invariant
            0 <= i <= s@.len(),
            parts_of(s@, sep) == views_of(out@) + parts_with(
                cur@,
                s@.subrange(i as int, s@.len() as int),
                sep,
            ),
        decreases s@.len() - i,
    {
        let ghost rest = s@.subrange(i as int, s@.len() as int);
        let ghost rest1 = s@.subrange(i as int + 1, s@.len() as int);
        proof {
            assert(rest.subrange(1, rest.len() as int) =~= rest1);
        }
        let b = s[i];
        if b == sep {
            let ghost old_out = out@;
            let ghost old_cur = cur@;
            out.push(cur);
            cur = Vec::new();
            proof {
                assert(parts_with(old_cur, rest, sep) == seq![old_cur] + parts_with(
                    cur@,
                    rest1,
                    sep,
                ));
                assert(views_of(out@) =~= views_of(old_out) + seq![old_cur]);
                assert(views_of(old_out) + (seq![old_cur] + parts_with(cur@, rest1, sep)) =~= (
                views_of(old_out) + seq![old_cur]) + parts_with(cur@, rest1, sep));
            }
        } else {
            cur.push(b);
        }
        i = i + 1;
    }
    proof {
        assert(s@.subrange(s@.len() as int, s@.len() as int) =~= Seq::<u8>::empty());
    }
    let ghost old_out = out@;
    let ghost old_cur = cur@;
    out.push(cur);
    proof {
        assert(views_of(out@) =~= views_of(old_out) + seq![old_cur]);
    }
    out
}

/// Leading ASCII whitespace of `s` removed.
pub open spec fn trim_start_spec(s: Seq<u8>) -> Seq<u8>
    decreases s.len(),
{
    if s.len() > 0 && is_ws(s[0]) {
        trim_start_spec(s.subrange(1, s.len() as int))
    } else {
        s
    }
}

/// ASCII whitespace removed from both ends of `s`.
pub open spec fn trim_spec(s: Seq<u8>) -> Seq<u8> {
    trim_start_spec(trim_end_spec(s))
}

/// Copies `s` without leading or trailing ASCII whitespace.
pub fn trim(s: &[u8]) -> (r: Vec<u8>)
    ensures
        r@ == trim_spec(s@),
{
    let mut k: usize = s.len();
    proof {
        assert(s@.subrange(0, s@.len() as int) =~= s@);
    }
    while k > 0 && ws_byte(s[k - 1])
        invariant
            0 <= k <= s@.len(),
            trim_end_spec(s@) == trim_end_spec(s@.subrange(0, k as int)),
        decreases k,
    {
        proof {
            assert(s@.subrange(0, k as int).drop_last() =~= s@.subrange(0, k as int - 1));
            assert(s@.subrange(0, k as int).last() == s@[k as int - 1]);
        }
        k = k - 1;
    }
    proof {
        if k > 0 {
            assert(s@.subrange(0, k as int).last() == s@[k as int - 1]);
        }
        assert(trim_end_spec(s@.subrange(0, k as int)) == s@.subrange(0, k as int));
        assert(trim_end_spec(s@) == s@.subrange(0, k as int));
    }
    let mut j: usize = 0;
    while j < k && ws_byte(s[j])
        invariant
            0 <= j <= k <= s@.len(),
            trim_end_spec(s@) == s@.subrange(0, k as int),
            trim_start_spec(s@.subrange(0, k as int)) == trim_start_spec(
                s@.subrange(j as int, k as int),
            ),
        decreases k - j,
    {
        proof {
            assert(s@.subrange(j as int, k as int)[0] == s@[j as int]);
            assert(s@.subrange(j as int, k as int).subrange(
                1,
                s@.subrange(j as int, k as int).len() as int,
            ) =~= s@.subrange(j as int + 1, k as int));
        }
        j = j + 1;
    }
    proof {
        if j < k {
            assert(s@.subrange(j as int, k as int)[0] == s@[j as int]);
        }
        assert(trim_start_spec(s@.subrange(j as int, k as int)) == s@.subrange(
            j as int,
            k as int,
        ));
    }
    let mut out: Vec<u8> = Vec::new();
    let mut i: usize = j;
    while i < k
        invariant
            j <= i <= k <= s@.len(),
            out@ =~= s@.subrange(j as int, i as int),
        decreases k - i,
    {
        out.push(s[i]);
        i = i + 1;
    }
    proof {
        assert(out@ =~= s@.subrange(j as int, k as int));
    }
    out
}

/// Ten to the `n`-th power.
pub open spec fn ten_pow(n: nat) -> nat
    decreases n,
{
    if n == 0 {
        1
    } else {
        10 * ten_pow((n - 1) as nat)
    }
}

/// A digit string of length `n` denotes a value below ten to the `n`.
pub proof fn lemma_digits_value_len_bound(s: Seq<u8>)
    requires
        all_digits(s),
    ensures
        digits_value(s) < ten_pow(s.len()),
    decreases s.len(),
{
    if s.len() > 0 {
        lemma_digits_value_len_bound(s.drop_last());
        assert(is_digit(s.last()));
    }
}

/// A non-empty, all-digit byte string whose value fits a `u64`.
pub open spec fn valid_u64(v: Seq<u8>) -> bool {
    v.len() > 0 && all_digits(v) && digits_value(v) <= u64::MAX
}

/// `p` is a prefix of `s`.
pub open spec fn is_prefix(p: Seq<u8>, s: Seq<u8>) -> bool {
    p.len() <= s.len() && s.subrange(0, p.len() as int) == p
}

/// `s` holds `p` as a contiguous subsequence.
pub open spec fn contains_seq(s: Seq<u8>, p: Seq<u8>) -> bool {
    exists|k: int| 0 <= k <= s.len() - p.len() && is_prefix(p, s.subrange(k, s.len() as int))
}

/// Whether `s` begins with the bytes of `p`.
pub fn starts_with(s: &[u8], p: &[u8]) -> (r: bool)
    ensures
        r == is_prefix(p@, s@),
{
    if p.len() > s.len() {
        return false;
    }
    let mut i: usize = 0;
    while i < p.len()
        invariant
            0 <= i <= p@.len() <= s@.len(),
            forall|j: int| 0 <= j < i ==> s@[j] == p@[j],
        decreases p@.len() - i,
    {
        if s[i] != p[i] {
            assert(s@.subrange(0, p@.len() as int)[i as int] == s@[i as int]);
            return false;
        }
        i = i + 1;
    }
    proof {
        assert(s@.subrange(0, p@.len() as int) =~= p@);
    }
    true
}

/// Whether two byte strings hold the same bytes.
pub fn bytes_eq(a: &[u8], b: &[u8]) -> (r: bool)
    ensures
        r == (a@ == b@),
{
    if a.len() != b.len() {
        proof {
            assert(a@ != b@);
        }
        return false;
    }
    let mut i: usize = 0;
    while i < a.len()
        invariant
            0 <= i <= a@.len() == b@.len(),
            forall|j: int| 0 <= j < i ==> a@[j] == b@[j],
        decreases a@.len() - i,
    {
        if a[i] != b[i] {
            proof {
                assert(a@[i as int] != b@[i as int]);
            }
            return false;
        }
        i = i + 1;
    }
    proof {
        assert(a@ =~= b@);
    }
    true
}

/// Whether `s` holds the bytes of `p` anywhere.
pub fn contains_bytes(s: &[u8], p: &[u8]) -> (r: bool)
    ensures
        r == contains_seq(s@, p@),
{
    if p.len() > s.len() {
        assert(!contains_seq(s@, p@));
        return false;
    }
    if p.len() == 0 {
        assert(s@.subrange(0, s@.len() as int).subrange(0, 0) =~= p@);
        assert(is_prefix(p@, s@.subrange(0, s@.len() as int)));
        return true;
    }
    let mut k: usize = 0;
    while k <= s.len() - p.len()
        invariant
            0 <= k <= s@.len() - p@.len() + 1,
            1 <= p@.len() <= s@.len(),
            forall|j: int| 0 <= j < k ==> !is_prefix(p@, s@.subrange(j, s@.len() as int)),
        decreases s@.len() - p@.len() - k + 1,
    {
        let tail = vstd::slice::slice_subrange(s, k, s.len());
        if starts_with(tail, p) {
            return true;
        }
        k = k + 1;
    }
    false
}

/// ASCII whitespace: space, tab, newline, carriage return.
pub open spec fn is_ws(b: u8) -> bool {
    b == 32 || b == 9 || b == 10 || b == 13
}

fn ws_byte(b: u8) -> (r: bool)
    ensures
        r == is_ws(b),
{
    b == 32 || b == 9 || b == 10 || b == 13
}

pub open spec fn trim_end_spec(s: Seq<u8>) -> Seq<u8>
    decreases s.len(),
{
    if s.len() > 0 && is_ws(s.last()) {
        trim_end_spec(s.drop_last())
    } else {
        s
    }
}

/// Copies `s` without its trailing ASCII whitespace.
pub fn trim_end(s: &[u8]) -> (r: Vec<u8>)
    ensures
        r@ == trim_end_spec(s@),
{
    let mut k: usize = s.len();
    proof {
        assert(s@.subrange(0, s@.len() as int) =~= s@);
    }
    while k > 0 && ws_byte(s[k - 1])
        invariant
            0 <= k <= s@.len(),
            trim_end_spec(s@) == trim_end_spec(s@.subrange(0, k as int)),
        decreases k,
    {
        proof {
            assert(s@.subrange(0, k as int).drop_last() =~= s@.subrange(0, k as int - 1));
            assert(s@.subrange(0, k as int).last() == s@[k as int - 1]);
        }
        k = k - 1;
    }
    proof {
        if k > 0 {
            assert(s@.subrange(0, k as int).last() == s@[k as int - 1]);
        }
        assert(trim_end_spec(s@.subrange(0, k as int)) == s@.subrange(0, k as int));
    }
    let mut out: Vec<u8> = Vec::new();
    let mut i: usize = 0;
    while i < k
        invariant
            0 <= i <= k <= s@.len(),
            out@ =~= s@.subrange(0, i as int),
        decreases k - i,
    {
        out.push(s[i]);
        i = i + 1;
    }
    out
}

} // verus!
