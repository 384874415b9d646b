//! Byte-string operations used by module-name resolution.
//!
//! Module names and image paths cross the foreign boundary as wide strings;
//! the embedding program hands them to this crate as plain byte strings.
//! Resolution needs ASCII case folding, path-separator handling, and
//! prefix/suffix tests, all defined here with exact specifications.

use vstd::prelude::*;

verus! {

/// ASCII lower-casing of a single byte: `A`..`Z` map to `a`..`z`,
/// everything else is unchanged.
pub open spec fn spec_lower_byte(b: u8) -> u8 {
    if 65 <= b <= 90 {
        (b + 32) as u8
    } else {
        b
    }
}

/// ASCII lower-casing of a byte string, byte by byte.
pub open spec fn spec_lower(s: Seq<u8>) -> Seq<u8> {
    s.map_values(|b: u8| spec_lower_byte(b))
}

/// A path separator: backslash or forward slash.
pub open spec fn spec_is_sep(b: u8) -> bool {
    b == 92 || b == 47
}

/// The suffix of `p` after its last path separator (all of `p` when it has
/// no separator).
pub open spec fn spec_file_name(p: Seq<u8>) -> Seq<u8>
    decreases p.len(),
{
    if p.len() == 0 {
        p
    } else if spec_is_sep(p.last()) {
        Seq::empty()
    } else {
        spec_file_name(p.drop_last()).push(p.last())
    }
}

/// `pre` is a prefix of `s`.
pub open spec fn spec_is_prefix(pre: Seq<u8>, s: Seq<u8>) -> bool {
    pre.len() <= s.len() && s.subrange(0, pre.len() as int) == pre
}

/// `suf` is a suffix of `s`.
pub open spec fn spec_is_suffix(suf: Seq<u8>, s: Seq<u8>) -> bool {
    suf.len() <= s.len() && s.subrange(s.len() - suf.len(), s.len() as int) == suf
}

/// ASCII lower-casing a byte string twice is the same as lower-casing it
/// once.
pub proof fn lemma_lower_idempotent(s: Seq<u8>)
    ensures
        spec_lower(spec_lower(s)) == spec_lower(s),
{
    assert(spec_lower(spec_lower(s)) =~= spec_lower(s));
}

/// Lower-casing keeps separators and non-separators apart, so taking the
/// file name commutes with lower-casing.
pub proof fn lemma_file_name_lower_commute(p: Seq<u8>)
    ensures
        spec_file_name(spec_lower(p)) == spec_lower(spec_file_name(p)),
    decreases p.len(),
{
    if p.len() == 0 {
        assert(spec_file_name(spec_lower(p)) =~= spec_lower(spec_file_name(p)));
    } else {
        lemma_file_name_lower_commute(p.drop_last());
        assert(spec_lower(p).last() == spec_lower_byte(p.last()));
        assert(spec_lower(p).drop_last() =~= spec_lower(p.drop_last()));
        assert(spec_file_name(spec_lower(p)) =~= spec_lower(spec_file_name(p)));
    }
}

/// ASCII lower-casing of a byte string.
pub fn to_lower(s: &[u8]) -> (r: Vec<u8>)
    ensures
        r@ == spec_lower(s@),
{
    let mut r: Vec<u8> = Vec::new();
    let n = s.len();
    let mut i: usize = 0;
    while i < n
        invariant
            n == s@.len(),
            i <= n,
            r@.len() == i,
            forall|j: int| 0 <= j < i ==> r@[j] == spec_lower_byte(s@[j]),
        decreases n - i,
    {
        let b = s[i];
        if 65 <= b && b <= 90 {
            r.push(b + 32);
        } else {
            r.push(b);
        }
        i = i + 1;
    }
    assert(r@ =~= spec_lower(s@));
    r
}

/// Whether `pre` is a prefix of `s`.
pub fn is_prefix(pre: &[u8], s: &[u8]) -> (r: bool)
    ensures
        r == spec_is_prefix(pre@, s@),
{
    let n = pre.len();
    if n > s.len() {
        return false;
    }
    let mut i: usize = 0;
    while i < n
        invariant
            n == pre@.len(),
            n <= s@.len(),
            i <= n,
            forall|j: int| 0 <= j < i ==> pre@[j] == s@[j],
        decreases n - i,
    {
        if pre[i] != s[i] {
            assert(s@.subrange(0, n as int)[i as int] != pre@[i as int]);
            return false;
        }
        i = i + 1;
    }
    assert(s@.subrange(0, n as int) =~= pre@);
    true
}

/// Whether `suf` is a suffix of `s`.
pub fn is_suffix(suf: &[u8], s: &[u8]) -> (r: bool)
    ensures
        r == spec_is_suffix(suf@, s@),
{
    let n = suf.len();
    let m = s.len();
    if n > m {
        return false;
    }
    let off = m - n;
    let mut i: usize = 0;
    while i < n
        invariant
            n == suf@.len(),
            m == s@.len(),
            n <= m,
            off == m - n,
            i <= n,
            forall|j: int| 0 <= j < i ==> suf@[j] == s@[off + j],
        decreases n - i,
    {
        if suf[i] != s[off + i] {
            assert(s@.subrange(off as int, m as int)[i as int] != suf@[i as int]);
            return false;
        }
        i = i + 1;
    }
    assert(s@.subrange(off as int, m as int) =~= suf@);
    true
}

/// Index just past the last path separator of `p` (0 when `p` has none);
/// the file name of `p` starts there.
pub fn file_name_start(p: &[u8]) -> (r: usize)
    ensures
        r <= p@.len(),
        spec_file_name(p@) == p@.subrange(r as int, p@.len() as int),
        forall|j: int| r <= j < p@.len() ==> !spec_is_sep(p@[j]),
        r > 0 ==> spec_is_sep(p@[r - 1]),
{
    let n = p.len();
    let mut i: usize = n;
    while i > 0
        invariant
            n == p@.len(),
            i <= n,
            forall|j: int| i <= j < n ==> !spec_is_sep(p@[j]),
        decreases i,
    {
        let b = p[i - 1];
        if b == 92 || b == 47 {
            proof {
                lemma_file_name_is_tail(p@, i as int);
            }
            return i;
        }
        i = i - 1;
    }
    proof {
        lemma_file_name_is_tail(p@, 0);
    }
    0
}

/// When every byte from `k` on is a non-separator and either `k` is 0 or the
/// byte before `k` is a separator, the file name of `p` is the tail of `p`
/// starting at `k`.
proof fn lemma_file_name_is_tail(p: Seq<u8>, k: int)
    requires
        0 <= k <= p.len(),
        forall|j: int| k <= j < p.len() ==> !spec_is_sep(p[j]),
        k > 0 ==> spec_is_sep(p[k - 1]),
    ensures
        spec_file_name(p) == p.subrange(k, p.len() as int),
    decreases p.len(),
{
    if p.len() == 0 {
        assert(spec_file_name(p) =~= p.subrange(k, p.len() as int));
    } else if k == p.len() {
        assert(spec_is_sep(p.last()));
        assert(spec_file_name(p) =~= p.subrange(k, p.len() as int));
    } else {
        assert(!spec_is_sep(p.last()));
        lemma_file_name_is_tail(p.drop_last(), k);
        assert(p.drop_last().subrange(k, p.len() - 1).push(p.last()) =~= p.subrange(
            k,
            p.len() as int,
        ));
    }
}

/// Copy of the subrange `[from, to)` of `s`.
pub fn subrange_vec(s: &[u8], from: usize, to: usize) -> (r: Vec<u8>)
    requires
        from <= to <= s@.len(),
    ensures
        r@ == s@.subrange(from as int, to as int),
{
    let mut r: Vec<u8> = Vec::new();
    let mut i: usize = from;
    while i < to
        invariant
            from <= i <= to <= s@.len(),
            r@.len() == i - from,
            forall|j: int| 0 <= j < r@.len() ==> r@[j] == s@[from + j],
        decreases to - i,
    {
        r.push(s[i]);
        i = i + 1;
    }
    assert(r@ =~= s@.subrange(from as int, to as int));
    r
}

} // verus!
