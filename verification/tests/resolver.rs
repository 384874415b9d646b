//! Behavior of the module-address cache and image-base resolution.

use mscoree::hresult::{E_FAIL, S_OK};
use mscoree::module_cache::{ModuleCache, ModuleEntry};

fn listing(mods: &[(&[u8], u64)]) -> Vec<ModuleEntry> {
    mods.iter()
        .map(|(name, base)| ModuleEntry { name: name.to_vec(), base: *base })
        .collect()
}

#[test]
fn exact_lookup_after_population() {
    let mut cache = ModuleCache::new();
    cache.populate(&listing(&[(b"clr.dll", 0x7000), (b"app.exe", 0x1000)]));
    assert_eq!(cache.resolve(b"clr.dll"), (S_OK, 0x7000));
    assert_eq!(cache.resolve(b"app.exe"), (S_OK, 0x1000));
}

#[test]
fn case_insensitive_resolution() {
    let mut cache = ModuleCache::new();
    cache.populate(&listing(&[(b"clr.dll", 0x7000)]));
    let lower = cache.resolve(b"clr.dll");
    assert_eq!(cache.resolve(b"CLR.DLL"), lower);
    assert_eq!(cache.resolve(b"CLR"), lower);
    assert_eq!(lower, (S_OK, 0x7000));
}

#[test]
fn stored_names_are_lower_cased() {
    let mut cache = ModuleCache::new();
    cache.populate(&listing(&[(b"CLR.DLL", 0x7000)]));
    assert_eq!(cache.resolve(b"clr.dll"), (S_OK, 0x7000));
    assert_eq!(cache.entries.len(), 1);
    assert_eq!(cache.entries[0].name, b"clr.dll".to_vec());
}

#[test]
fn unknown_module_returns_not_found_and_zero() {
    let mut cache = ModuleCache::new();
    cache.populate(&listing(&[(b"clr.dll", 0x7000)]));
    assert_eq!(cache.resolve(b"missing.dll"), (E_FAIL, 0));
}

#[test]
fn unknown_module_in_empty_cache() {
    let cache = ModuleCache::new();
    assert_eq!(cache.resolve(b"anything.dll"), (E_FAIL, 0));
}

#[test]
fn population_happens_at_most_once() {
    let mut once = ModuleCache::new();
    once.populate(&listing(&[(b"clr.dll", 0x7000)]));

    let mut twice = ModuleCache::new();
    twice.populate(&listing(&[(b"clr.dll", 0x7000)]));
    twice.populate(&listing(&[(b"clr.dll", 0x7000)]));

    assert_eq!(once.entries.len(), twice.entries.len());
    for (a, b) in once.entries.iter().zip(twice.entries.iter()) {
        assert_eq!(a.name, b.name);
        assert_eq!(a.base, b.base);
    }

    // A later listing cannot displace the first population.
    let mut cache = ModuleCache::new();
    cache.populate(&listing(&[(b"clr.dll", 0x7000)]));
    cache.populate(&listing(&[(b"other.dll", 0x9000)]));
    assert_eq!(cache.resolve(b"clr.dll"), (S_OK, 0x7000));
    assert_eq!(cache.resolve(b"other.dll"), (E_FAIL, 0));
}

#[test]
fn duplicate_names_keep_the_last_base() {
    let mut cache = ModuleCache::new();
    cache.populate(&listing(&[(b"a.dll", 1), (b"a.dll", 2)]));
    assert_eq!(cache.entries.len(), 1);
    assert_eq!(cache.resolve(b"a.dll"), (S_OK, 2));
}

#[test]
fn query_path_is_reduced_to_its_file_name() {
    let mut cache = ModuleCache::new();
    cache.populate(&listing(&[(b"clr.dll", 0x7000)]));
    assert_eq!(cache.resolve(b"C:\\windows\\system32\\clr.dll"), (S_OK, 0x7000));
    assert_eq!(cache.resolve(b"/usr/lib/clr.dll"), (S_OK, 0x7000));
}

#[test]
fn heuristic_accepts_query_prefix_of_entry() {
    let mut cache = ModuleCache::new();
    cache.populate(&listing(&[(b"coreclr.dll", 0x5000)]));
    // "coreclr" is a prefix of "coreclr.dll".
    assert_eq!(cache.resolve(b"coreclr"), (S_OK, 0x5000));
}

#[test]
fn heuristic_accepts_stripped_entry_prefix_of_query() {
    let mut cache = ModuleCache::new();
    cache.populate(&listing(&[(b"clr.dll", 0x7000)]));
    // "clr.dll" minus ".dll" is "clr", a prefix of "clr.ni.dll".
    assert_eq!(cache.resolve(b"clr.ni.dll"), (S_OK, 0x7000));
}

#[test]
fn exact_match_wins_over_heuristic() {
    let mut cache = ModuleCache::new();
    cache.populate(&listing(&[(b"clr", 0x100), (b"clr.dll", 0x200)]));
    assert_eq!(cache.resolve(b"clr.dll"), (S_OK, 0x200));
    assert_eq!(cache.resolve(b"clr"), (S_OK, 0x100));
}
