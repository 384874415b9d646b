//! Status codes of the foreign binary contract.
//!
//! Every operation of the data-target contract reports its outcome as a
//! 32-bit signed status value: non-negative values are success, negative
//! values are failure.

use vstd::prelude::*;

verus! {

/// Success.
pub const S_OK: i32 = 0;

/// Success with a false/empty result (e.g. an exhausted enumeration).
pub const S_FALSE: i32 = 1;

/// Unspecified failure (0x80004005 as a signed 32-bit value).
pub const E_FAIL: i32 = -2147467259;

/// The requested operation is not implemented (0x80004001).
pub const E_NOTIMPL: i32 = -2147467263;

/// The requested capability is not available (0x80004002).
pub const E_NOINTERFACE: i32 = -2147467262;

/// A status value reports success exactly when it is non-negative.
pub open spec fn spec_succeeded(hr: i32) -> bool {
    hr >= 0
}

/// Whether a status value reports success.
pub fn succeeded(hr: i32) -> (r: bool)
    ensures
        r == spec_succeeded(hr),
{
    hr >= 0
}

} // verus!
