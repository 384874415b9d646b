//! Data types of the debugger-attach portion of the foreign contract.

use vstd::prelude::*;

verus! {

/// CLR_DEBUGGING_VERSION structure.
#[derive(Debug, Copy, Clone, Default)]
pub struct CLR_DEBUGGING_VERSION {
    pub wStructVersion: u16,
    pub wMajor: u16,
    pub wMinor: u16,
    pub wBuild: u16,
    pub wRevision: u16,
}

/// CLR_DEBUGGING_PROCESS_FLAGS.
#[derive(Debug, Copy, Clone, PartialEq, Eq)]
pub enum CLR_DEBUGGING_PROCESS_FLAGS {
    CLR_DEBUGGING_MANAGED_EVENT_PENDING,
    CLR_DEBUGGING_MANAGED_EVENT_DEBUGGER_LAUNCH,
}

} // verus!
