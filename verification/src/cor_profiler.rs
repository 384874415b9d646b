//! Data types of the profiling portion of the foreign contract.

use vstd::prelude::*;

verus! {

/// COR_PRF_MONITOR flags - Events that can be monitored by a profiler.
#[derive(Debug, Copy, Clone, PartialEq, Eq)]
pub enum CorPrfMonitor {
    /// Monitor nothing.
    NoEvents,
    FunctionUnloads,
    ClassLoads,
    ModuleLoads,
    AssemblyLoads,
    AppDomainLoads,
    JitCompilation,
    Exceptions,
    Clr,
    Gc,
    ObjectAllocated,
    Threads,
    Remoting,
    Code,
    EnterLeave,
    Ccw,
    RemotingAsync,
    Inproc,
    Suspends,
    CacheSearches,
    All,
}

/// COR_PRF_GC_GENERATION - GC generation values.
#[derive(Debug, Copy, Clone, PartialEq, Eq)]
pub enum CorPrfGcGeneration {
    Gen0,
    Gen1,
    Gen2,
    LargeObjectHeap,
    PinnedObjectHeap,
}

} // verus!
