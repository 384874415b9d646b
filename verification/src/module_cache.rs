//! The module-address cache behind image-base resolution.
//!
//! The cache maps lower-cased module file names to base addresses.  It is
//! populated at most once per object lifetime from a module listing that the
//! embedding program obtains from the OS; once non-empty it is never
//! refreshed, so entries can go stale if the target's module list changes
//! (a documented limitation).
//!
//! Resolution normalizes the queried image path (file name only, ASCII
//! lower-cased), tries an exact match, and falls back to a heuristic: an
//! entry matches when the query is a prefix of the entry, or the entry with
//! a trailing `.dll` suffix removed is a prefix of the query.  A miss is
//! reported as a failure status with a zero address.

use vstd::prelude::*;

use crate::bytes::{
    is_prefix, is_suffix, file_name_start, to_lower, subrange_vec, spec_lower, spec_file_name,
    spec_is_prefix, spec_is_suffix, lemma_lower_idempotent, lemma_file_name_lower_commute,
};
use crate::hresult::{S_OK, E_FAIL};

verus! {

/// One cache entry: a module file name and its base address.
pub struct ModuleEntry {
    /// The module's base file name (lower-cased once stored in the cache).
    pub name: Vec<u8>,
    /// The module's base address in the target process.
    pub base: u64,
}

impl View for ModuleEntry {
    type V = (Seq<u8>, u64);

    open spec fn view(&self) -> (Seq<u8>, u64) {
        (self.name@, self.base)
    }
}

/// The byte string `.dll`.
pub open spec fn spec_dll_suffix() -> Seq<u8> {
    seq![46u8, 100u8, 108u8, 108u8]
}

/// `s` with one trailing `.dll` suffix removed, when it has one.
pub open spec fn spec_strip_dll(s: Seq<u8>) -> Seq<u8> {
    if spec_is_suffix(spec_dll_suffix(), s) {
        s.subrange(0, s.len() - 4)
    } else {
        s
    }
}

/// The normalized form of a queried image path: its file name, ASCII
/// lower-cased.
pub open spec fn spec_normalize_query(path: Seq<u8>) -> Seq<u8> {
    spec_lower(spec_file_name(path))
}

/// The heuristic fallback: entry name `entry` serves query `q` when `q` is
/// a prefix of `entry`, or `entry` without a trailing `.dll` is a prefix of
/// `q`.
pub open spec fn spec_heuristic_match(entry: Seq<u8>, q: Seq<u8>) -> bool {
    spec_is_prefix(q, entry) || spec_is_prefix(spec_strip_dll(entry), q)
}

/// Index of the first entry whose name equals `name`, or -1.
pub open spec fn spec_find_index(entries: Seq<(Seq<u8>, u64)>, name: Seq<u8>) -> int
    decreases entries.len(),
{
    if entries.len() == 0 {
        -1
    } else if entries[0].0 == name {
        0
    } else {
        let r = spec_find_index(entries.drop_first(), name);
        if r < 0 {
            -1
        } else {
            r + 1
        }
    }
}

/// Index of the first entry whose name heuristically matches `q`, or -1.
pub open spec fn spec_find_heuristic_index(entries: Seq<(Seq<u8>, u64)>, q: Seq<u8>) -> int
    decreases entries.len(),
{
    if entries.len() == 0 {
        -1
    } else if spec_heuristic_match(entries[0].0, q) {
        0
    } else {
        let r = spec_find_heuristic_index(entries.drop_first(), q);
        if r < 0 {
            -1
        } else {
            r + 1
        }
    }
}

/// What resolving `path` against `entries` returns: a status and an address.
/// An exact match on the normalized query wins; otherwise the first
/// heuristic match; otherwise failure with address zero.
pub open spec fn spec_resolve(entries: Seq<(Seq<u8>, u64)>, path: Seq<u8>) -> (i32, u64) {
    let q = spec_normalize_query(path);
    let i = spec_find_index(entries, q);
    if i >= 0 {
        (S_OK, entries[i].1)
    } else {
        let h = spec_find_heuristic_index(entries, q);
        if h >= 0 {
            (S_OK, entries[h].1)
        } else {
            (E_FAIL, 0u64)
        }
    }
}

/// `entries` after a map-style insert of (`name`, `base`): the first entry
/// named `name` is overwritten, or a new entry is appended.
pub open spec fn spec_insert(entries: Seq<(Seq<u8>, u64)>, name: Seq<u8>, base: u64) -> Seq<
    (Seq<u8>, u64),
> {
    let i = spec_find_index(entries, name);
    if i >= 0 {
        entries.update(i, (name, base))
    } else {
        entries.push((name, base))
    }
}

/// `entries` after inserting every module of `mods`, in order, with its
/// name lower-cased.
pub open spec fn spec_insert_all(
    entries: Seq<(Seq<u8>, u64)>,
    mods: Seq<(Seq<u8>, u64)>,
) -> Seq<(Seq<u8>, u64)>
    decreases mods.len(),
{
    if mods.len() == 0 {
        entries
    } else {
        spec_insert_all(
            spec_insert(entries, spec_lower(mods[0].0), mods[0].1),
            mods.drop_first(),
        )
    }
}

/// What population does: nothing when the cache is already non-empty,
/// otherwise insert every listed module.
pub open spec fn spec_populate(
    entries: Seq<(Seq<u8>, u64)>,
    mods: Seq<(Seq<u8>, u64)>,
) -> Seq<(Seq<u8>, u64)> {
    if entries.len() > 0 {
        entries
    } else {
        spec_insert_all(entries, mods)
    }
}

/// Characterization of `spec_find_index`: it is the first matching index,
/// and -1 exactly when nothing matches.
pub proof fn lemma_find_index(entries: Seq<(Seq<u8>, u64)>, name: Seq<u8>)
    ensures
        spec_find_index(entries, name) == -1 || 0 <= spec_find_index(entries, name)
            < entries.len(),
        spec_find_index(entries, name) == -1 <==> (forall|i: int|
            0 <= i < entries.len() ==> entries[i].0 != name),
        spec_find_index(entries, name) >= 0 ==> {
            let k = spec_find_index(entries, name);
            &&& k < entries.len()
            &&& entries[k].0 == name
            &&& forall|j: int| 0 <= j < k ==> entries[j].0 != name
        },
    decreases entries.len(),
{
    if entries.len() > 0 && entries[0].0 != name {
        lemma_find_index(entries.drop_first(), name);
        assert(forall|i: int|
            1 <= i < entries.len() ==> entries[i].0 == entries.drop_first()[i - 1].0);
    }
}

/// Characterization of `spec_find_heuristic_index`, as for exact lookup.
pub proof fn lemma_find_heuristic_index(entries: Seq<(Seq<u8>, u64)>, q: Seq<u8>)
    ensures
        spec_find_heuristic_index(entries, q) == -1 || 0 <= spec_find_heuristic_index(entries, q)
            < entries.len(),
        spec_find_heuristic_index(entries, q) == -1 <==> (forall|i: int|
            0 <= i < entries.len() ==> !spec_heuristic_match(entries[i].0, q)),
        spec_find_heuristic_index(entries, q) >= 0 ==> {
            let k = spec_find_heuristic_index(entries, q);
            &&& k < entries.len()
            &&& spec_heuristic_match(entries[k].0, q)
            &&& forall|j: int| 0 <= j < k ==> !spec_heuristic_match(entries[j].0, q)
        },
    decreases entries.len(),
{
    if entries.len() > 0 && !spec_heuristic_match(entries[0].0, q) {
        lemma_find_heuristic_index(entries.drop_first(), q);
        assert(forall|i: int|
            1 <= i < entries.len() ==> entries[i].0 == entries.drop_first()[i - 1].0);
    }
}

/// The lazily-populated module-address cache.
pub struct ModuleCache {
    /// The entries, in insertion order; names are stored lower-cased.
    pub entries: Vec<ModuleEntry>,
}

impl View for ModuleCache {
    type V = Seq<(Seq<u8>, u64)>;

    open spec fn view(&self) -> Seq<(Seq<u8>, u64)> {
        self.entries@.map_values(|e: ModuleEntry| e@)
    }
}

impl ModuleCache {
    /// Every stored name is already ASCII lower-case.
    pub open spec fn wf(&self) -> bool {
        forall|i: int| 0 <= i < self@.len() ==> #[trigger] self@[i].0 == spec_lower(self@[i].0)
    }

    /// An empty cache, not yet populated.
    pub fn new() -> (r: Self)
        ensures
            r@.len() == 0,
            r.wf(),
    {
        let r = ModuleCache { entries: Vec::new() };
        assert(r@ =~= Seq::<(Seq<u8>, u64)>::empty());
        r
    }

    /// Whether the cache is still empty, i.e. population has not happened.
    pub fn is_empty(&self) -> (r: bool)
        ensures
            r == (self@.len() == 0),
    {
        self.entries.len() == 0
    }

    /// Map-style insert: lower-cases `name`, overwrites the first entry of
    /// that name or appends a new one.
    pub fn insert(&mut self, name: &[u8], base: u64)
        requires
            old(self).wf(),
        ensures
            final(self)@ == spec_insert(old(self)@, spec_lower(name@), base),
            final(self).wf(),
    {
        let lowered = to_lower(name);
        let ghost key = spec_lower(name@);
        proof {
            lemma_lower_idempotent(name@);
        }
        let n = self.entries.len();
        let mut i: usize = 0;
        while i < n
            invariant
                self@ == old(self)@,
                self.wf(),
                key == spec_lower(key),
                key == spec_lower(name@),
                n == self@.len(),
                i <= n,
                lowered@ == key,
                forall|j: int| 0 <= j < i ==> self@[j].0 != key,
            decreases n - i,
        {
            if compare_bytes(&self.entries[i].name, &lowered) {
                proof {
                    assert(self@[i as int].0 == key);
                    assert(old(self)@[i as int].0 == key);
                }
                let entry = ModuleEntry { name: lowered, base };
                self.entries.set(i, entry);
                proof {
                    assert(self@ =~= old(self)@.update(i as int, (key, base)));
                    lemma_find_index(old(self)@, key);
                    assert(spec_find_index(old(self)@, key) == i as int);
                    lemma_lower_preserved_by_update(old(self)@, self@, i as int, key);
                }
                return ;
            }
            i = i + 1;
        }
        proof {
            lemma_find_index(old(self)@, key);
        }
        let entry = ModuleEntry { name: lowered, base };
        self.entries.push(entry);
        proof {
            assert(self@ =~= old(self)@.push((key, base)));
            lemma_lower_idempotent(name@);
        }
    }

    /// One-shot population: when the cache is already non-empty this does
    /// nothing; otherwise every listed module is inserted with its name
    /// lower-cased.
    pub fn populate(&mut self, mods: &Vec<ModuleEntry>)
        requires
            old(self).wf(),
        ensures
            final(self)@ == spec_populate(old(self)@, mods@.map_values(|e: ModuleEntry| e@)),
            final(self).wf(),
    {
        if !self.is_empty() {
            return ;
        }
        let ghost all = mods@.map_values(|e: ModuleEntry| e@);
        proof {
            assert(all.skip(0) =~= all);
        }
        let n = mods.len();
        let mut i: usize = 0;
        while i < n
            invariant
                n == all.len(),
                n == mods@.len(),
                i <= n,
                all == mods@.map_values(|e: ModuleEntry| e@),
                self.wf(),
                spec_insert_all(self@, all.skip(i as int)) == spec_insert_all(
                    old(self)@,
                    all,
                ),
                old(self)@.len() == 0,
            decreases n - i,
        {
            let ghost before = self@;
            self.insert(&mods[i].name, mods[i].base);
            proof {
                assert(all.skip(i as int)[0] == mods@[i as int]@);
                assert(all.skip(i as int).drop_first() =~= all.skip(i as int + 1));
            }
            i = i + 1;
        }
        proof {
            assert(all.skip(n as int) =~= Seq::<(Seq<u8>, u64)>::empty());
        }
    }

    /// Resolve an image path to a base address.  The path's file name is
    /// lower-cased; an exact match wins, then the first heuristic match;
    /// a miss returns a failure status and address zero.
    pub fn resolve(&self, path: &[u8]) -> (r: (i32, u64))
        ensures
            r == spec_resolve(self@, path@),
    {
        let start = file_name_start(path);
        let fname = subrange_vec(path, start, path.len());
        let q = to_lower(&fname);
        let ghost qs = spec_normalize_query(path@);
        let n = self.entries.len();

        // Exact match on the normalized query.
        proof {
            lemma_find_index(self@, qs);
        }
        let mut i: usize = 0;
        while i < n
            invariant
                n == self@.len(),
                i <= n,
                q@ == qs,
                qs == spec_normalize_query(path@),
                forall|j: int| 0 <= j < i ==> self@[j].0 != qs,
            decreases n - i,
        {
            if compare_bytes(&self.entries[i].name, &q) {
                proof {
                    assert(self@[i as int].0 == qs);
                    lemma_find_index(self@, qs);
                    assert(spec_find_index(self@, qs) == i as int);
                    assert(self@[i as int].1 == self.entries@[i as int].base);
                }
                return (S_OK, self.entries[i].base);
            }
            i = i + 1;
        }

        // Heuristic fallback.
        proof {
            lemma_find_heuristic_index(self@, qs);
        }
        let mut i: usize = 0;
        while i < n
            invariant
                n == self@.len(),
                i <= n,
                q@ == qs,
                qs == spec_normalize_query(path@),
                spec_find_index(self@, qs) == -1,
                forall|j: int| 0 <= j < i ==> !spec_heuristic_match(self@[j].0, qs),
            decreases n - i,
        {
            if self.heuristic_match_at(i, &q) {
                proof {
                    lemma_find_heuristic_index(self@, qs);
                    assert(spec_find_heuristic_index(self@, qs) == i as int);
                    assert(self@[i as int].1 == self.entries@[i as int].base);
                }
                return (S_OK, self.entries[i].base);
            }
            i = i + 1;
        }
        (E_FAIL, 0)
    }

    /// Whether the entry at `i` heuristically matches query `q`.
    fn heuristic_match_at(&self, i: usize, q: &[u8]) -> (r: bool)
        requires
            i < self@.len(),
        ensures
            r == spec_heuristic_match(self@[i as int].0, q@),
    {
        let name = &self.entries[i].name;
        if is_prefix(q, name.as_slice()) {
            return true;
        }
        let stripped = strip_dll(name.as_slice());
        is_prefix(&stripped, q)
    }
}

/// Stored names are still lower-case after overwriting the entry at `k`
/// with a lower-case name.
proof fn lemma_lower_preserved_by_update(
    before: Seq<(Seq<u8>, u64)>,
    after: Seq<(Seq<u8>, u64)>,
    k: int,
    key: Seq<u8>,
)
    requires
        0 <= k < before.len(),
        after == before.update(k, (key, after[k].1)),
        key == spec_lower(key),
        forall|i: int| 0 <= i < before.len() ==> #[trigger] before[i].0 == spec_lower(before[i].0),
    ensures
        forall|i: int| 0 <= i < after.len() ==> #[trigger] after[i].0 == spec_lower(after[i].0),
{
}

/// Byte-string equality.
fn compare_bytes(a: &[u8], b: &[u8]) -> (r: bool)
    ensures
        r == (a@ == b@),
{
    let n = a.len();
    if n != b.len() {
        return false;
    }
    let mut i: usize = 0;
    while i < n
        invariant
            n == a@.len(),
            n == b@.len(),
            i <= n,
            forall|j: int| 0 <= j < i ==> a@[j] == b@[j],
        decreases n - i,
    {
        if a[i] != b[i] {
            return false;
        }
        i = i + 1;
    }
    assert(a@ =~= b@);
    true
}

/// `s` with one trailing `.dll` suffix removed, when it has one.
pub fn strip_dll(s: &[u8]) -> (r: Vec<u8>)
    ensures
        r@ == spec_strip_dll(s@),
{
    let suffix: [u8; 4] = [46, 100, 108, 108];
    assert(suffix@ =~= spec_dll_suffix());
    if is_suffix(suffix.as_slice(), s) {
        subrange_vec(s, 0, s.len() - 4)
    } else {
        let r = subrange_vec(s, 0, s.len());
        assert(r@ =~= s@);
        r
    }
}

/// Resolution is case-insensitive in the queried path: resolving a path and
/// resolving its ASCII lower-casing return the same status and address.
pub proof fn lemma_resolve_case_insensitive(entries: Seq<(Seq<u8>, u64)>, path: Seq<u8>)
    ensures
        spec_resolve(entries, spec_lower(path)) == spec_resolve(entries, path),
{
    lemma_file_name_lower_commute(path);
    lemma_lower_idempotent(spec_file_name(path));
    assert(spec_normalize_query(spec_lower(path)) == spec_normalize_query(path));
}

/// Population is idempotent: populating an already-populated cache changes
/// nothing, so populating twice equals populating once.
pub proof fn lemma_populate_idempotent(entries: Seq<(Seq<u8>, u64)>, mods: Seq<(Seq<u8>, u64)>)
    ensures
        spec_populate(spec_populate(entries, mods), mods) == spec_populate(entries, mods),
{
    let once = spec_populate(entries, mods);
    if once.len() == 0 {
        assert(once =~= Seq::<(Seq<u8>, u64)>::empty());
        if entries.len() > 0 {
        } else {
            assert(spec_populate(once, mods) == spec_insert_all(once, mods));
            lemma_insert_all_empty_prefix(once, entries, mods);
        }
    }
}

/// Inserting the same modules into two equal starting caches gives equal
/// results (used with the empty cache in both positions).
proof fn lemma_insert_all_empty_prefix(
    a: Seq<(Seq<u8>, u64)>,
    b: Seq<(Seq<u8>, u64)>,
    mods: Seq<(Seq<u8>, u64)>,
)
    requires
        a =~= b,
    ensures
        spec_insert_all(a, mods) == spec_insert_all(b, mods),
{
    assert(a == b);
}

} // verus!
