//! Data types of the JIT-compiler portion of the foreign contract.

use vstd::prelude::*;

verus! {

/// Result codes returned by ICorJitCompiler::compileMethod
#[derive(Debug, Clone, Copy, PartialEq, Eq)]
pub enum CorJitResult {
    /// Compilation succeeded
    CORJIT_OK,
    /// Bad IL code
    CORJIT_BADCODE,
    /// Out of memory
    CORJIT_OUTOFMEM,
    /// Internal error
    CORJIT_INTERNALERROR,
    /// Compilation skipped
    CORJIT_SKIPPED,
    /// Recoverable error
    CORJIT_RECOVERABLEERROR,
    /// Implementation limitation
    CORJIT_IMPLLIMITATION,
    /// ReadyToRun not supported
    CORJIT_R2R_UNSUPPORTED,
}

/// Flags passed to ICorJitInfo::allocMem
#[derive(Debug, Clone, Copy, PartialEq, Eq)]
pub enum CorJitAllocMemFlag {
    CORJIT_ALLOCMEM_HOT_CODE,
    CORJIT_ALLOCMEM_COLD_CODE,
    CORJIT_ALLOCMEM_READONLY_DATA,
    CORJIT_ALLOCMEM_HAS_POINTERS_TO_CODE,
}

/// Function kind for exception handling
#[derive(Debug, Clone, Copy, PartialEq, Eq)]
pub enum CorJitFuncKind {
    /// The main/root function (always id==0)
    CORJIT_FUNC_ROOT,
    /// A funclet associated with an EH handler (finally, fault, catch, filter handler)
    CORJIT_FUNC_HANDLER,
    /// A funclet associated with an EH filter
    CORJIT_FUNC_FILTER,
}

/// Target OS for JIT compilation
#[derive(Debug, Clone, Copy, PartialEq, Eq)]
pub enum CORINFO_OS {
    CORINFO_WINNT,
    CORINFO_UNIX,
    CORINFO_APPLE,
}

} // verus!
