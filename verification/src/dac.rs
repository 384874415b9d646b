//! Locating the inspection library next to the target's runtime.
//!
//! The engine lives in a shared library whose file name depends on the
//! runtime family loaded in the target process: a target running
//! `coreclr.dll` keeps its engine in `mscordaccore.dll`, one running
//! `clr.dll` in `mscordacwks.dll`, each in the same directory as the
//! runtime module.  The embedding program walks the target's module paths,
//! asks this module for the candidate engine path of each, and loads the
//! first candidate that exists on disk.

use vstd::prelude::*;

use crate::bytes::{is_suffix, subrange_vec, spec_file_name, spec_is_suffix, spec_lower, to_lower};

verus! {

/// The byte string `coreclr.dll`.
pub open spec fn spec_coreclr_name() -> Seq<u8> {
    seq![99u8, 111u8, 114u8, 101u8, 99u8, 108u8, 114u8, 46u8, 100u8, 108u8, 108u8]
}

/// The byte string `clr.dll`.
pub open spec fn spec_clr_name() -> Seq<u8> {
    seq![99u8, 108u8, 114u8, 46u8, 100u8, 108u8, 108u8]
}

/// The byte string `mscordaccore.dll`.
pub open spec fn spec_daccore_name() -> Seq<u8> {
    seq![
        109u8,
        115u8,
        99u8,
        111u8,
        114u8,
        100u8,
        97u8,
        99u8,
        99u8,
        111u8,
        114u8,
        101u8,
        46u8,
        100u8,
        108u8,
        108u8,
    ]
}

/// The byte string `mscordacwks.dll`.
pub open spec fn spec_dacwks_name() -> Seq<u8> {
    seq![
        109u8,
        115u8,
        99u8,
        111u8,
        114u8,
        100u8,
        97u8,
        99u8,
        119u8,
        107u8,
        115u8,
        46u8,
        100u8,
        108u8,
        108u8,
    ]
}

/// The engine file name for the runtime module at `path`, decided on the
/// lower-cased path: `mscordaccore.dll` beside `coreclr.dll`,
/// `mscordacwks.dll` beside `clr.dll`, nothing for any other module.
pub open spec fn spec_dac_file_for(path: Seq<u8>) -> Option<Seq<u8>> {
    let lower = spec_lower(path);
    if spec_is_suffix(spec_coreclr_name(), lower) {
        Some(spec_daccore_name())
    } else if spec_is_suffix(spec_clr_name(), lower) {
        Some(spec_dacwks_name())
    } else {
        None
    }
}

/// The directory part of `path`: everything up to and including the last
/// separator (empty when `path` has none).
pub open spec fn spec_dir_prefix(path: Seq<u8>) -> Seq<u8> {
    path.take(path.len() - spec_file_name(path).len())
}

/// The candidate engine path for the runtime module at `path`: the
/// module's directory joined with the engine file name, when `path` is a
/// runtime module at all.
pub open spec fn spec_dac_candidate(path: Seq<u8>) -> Option<Seq<u8>> {
    match spec_dac_file_for(path) {
        Some(file) => Some(spec_dir_prefix(path) + file),
        None => None,
    }
}

/// The engine file name for the runtime module at `path`, or nothing when
/// `path` is not a runtime module.
pub fn dac_file_for(path: &[u8]) -> (r: Option<Vec<u8>>)
    ensures
        match r {
            Some(f) => spec_dac_file_for(path@) == Some(f@),
            None => spec_dac_file_for(path@) is None,
        },
{
    let lower = to_lower(path);
    let coreclr: [u8; 11] = [99, 111, 114, 101, 99, 108, 114, 46, 100, 108, 108];
    let clr: [u8; 7] = [99, 108, 114, 46, 100, 108, 108];
    assert(coreclr@ =~= spec_coreclr_name());
    assert(clr@ =~= spec_clr_name());
    if is_suffix(coreclr.as_slice(), &lower) {
        let daccore: [u8; 16] = [
            109,
            115,
            99,
            111,
            114,
            100,
            97,
            99,
            99,
            111,
            114,
            101,
            46,
            100,
            108,
            108,
        ];
        let mut f: Vec<u8> = Vec::new();
        let mut i: usize = 0;
        while i < 16
            invariant
                i <= 16,
                f@ =~= daccore@.take(i as int),
            decreases 16 - i,
        {
            f.push(daccore[i]);
            i = i + 1;
        }
        assert(f@ =~= spec_daccore_name());
        Some(f)
    } else if is_suffix(clr.as_slice(), &lower) {
        let dacwks: [u8; 15] = [109, 115, 99, 111, 114, 100, 97, 99, 119, 107, 115, 46, 100, 108, 108];
        let mut f: Vec<u8> = Vec::new();
        let mut i: usize = 0;
        while i < 15
            invariant
                i <= 15,
                f@ =~= dacwks@.take(i as int),
            decreases 15 - i,
        {
            f.push(dacwks[i]);
            i = i + 1;
        }
        assert(f@ =~= spec_dacwks_name());
        Some(f)
    } else {
        None
    }
}

/// The candidate engine path for the runtime module at `path`: its
/// directory joined with the engine file name, or nothing when `path` is
/// not a runtime module.
pub fn dac_candidate(path: &[u8]) -> (r: Option<Vec<u8>>)
    ensures
        match r {
            Some(c) => spec_dac_candidate(path@) == Some(c@),
            None => spec_dac_candidate(path@) is None,
        },
{
    match dac_file_for(path) {
        Some(file) => {
            let start = crate::bytes::file_name_start(path);
            let mut out = subrange_vec(path, 0, start);
            proof {
                assert(path@.subrange(0, start as int) =~= spec_dir_prefix(path@));
            }
            let n = file.len();
            let mut i: usize = 0;
            while i < n
                invariant
                    n == file@.len(),
                    i <= n,
                    out@ =~= spec_dir_prefix(path@) + file@.take(i as int),
                decreases n - i,
            {
                out.push(file[i]);
                i = i + 1;
            }
            proof {
                assert(out@ =~= spec_dir_prefix(path@) + file@);
            }
            Some(out)
        },
        None => None,
    }
}

} // verus!
