//! Diagnostic record layouts served by the inspection engine.
//!
//! The engine answers queries about the target runtime with these records:
//! thread stores, domains, assemblies, modules, method descriptors, GC
//! heaps, and the rest.  They are carried here as plain data so that a
//! caller can decode what the engine hands back.

use vstd::prelude::*;

use crate::data_target::CLRDATA_ADDRESS;

verus! {

/// Number of GC generations (0, 1, 2, LOH)
pub const DAC_NUMBERGENERATIONS: usize = 4;

/// Number of interesting-data points a GC info record carries.
pub const DAC_NUM_GC_DATA_POINTS: usize = 9;

/// Number of compaction reasons a GC info record carries.
pub const DAC_MAX_COMPACT_REASONS_COUNT: usize = 11;

/// Number of heap-expansion mechanisms a GC info record carries.
pub const DAC_MAX_EXPAND_MECHANISMS_COUNT: usize = 6;

/// Number of GC mechanism bits a GC info record carries.
pub const DAC_MAX_GC_MECHANISM_BITS_COUNT: usize = 2;

/// Number of global GC mechanisms a GC info record carries.
pub const DAC_MAX_GLOBAL_GC_MECHANISMS_COUNT: usize = 6;

/// Version of the SOS breaking-change protocol this surface matches.
pub const SOS_BREAKING_CHANGE_VERSION: i32 = 5;

/// The engine's module capability as the SOS surface names it; the
/// contract declares it here with no operations of its own.
pub trait IXCLRDataModule_SOS {
}

/// Handle data for GC handles.
pub struct SOSHandleData {
    pub AppDomain: CLRDATA_ADDRESS,
    pub Handle: CLRDATA_ADDRESS,
    pub Secondary: CLRDATA_ADDRESS,
    pub Type: u32,
    pub StrongReference: i32,
    pub RefCount: u32,
    pub JupiterRefCount: u32,
    pub IsPegged: i32,
}

/// Stack source type enumeration.
#[derive(Debug, Clone, Copy, PartialEq, Eq)]
pub enum SOSStackSourceType {
    SOS_StackSourceIP,
    SOS_StackSourceFrame,
}

/// Stack reference flags.
#[derive(Debug, Clone, Copy, PartialEq, Eq)]
pub enum SOSRefFlags {
    SOSRefInterior,
    SOSRefPinned,
}

/// Stack reference data.
pub struct SOSStackRefData {
    pub HasRegisterInformation: i32,
    pub Register: i32,
    pub Offset: i32,
    pub Address: CLRDATA_ADDRESS,
    pub Object: CLRDATA_ADDRESS,
    pub Flags: u32,
    pub SourceType: SOSStackSourceType,
    pub Source: CLRDATA_ADDRESS,
    pub StackPointer: CLRDATA_ADDRESS,
}

/// Stack reference error data.
pub struct SOSStackRefError {
    pub SourceType: SOSStackSourceType,
    pub Source: CLRDATA_ADDRESS,
    pub StackPointer: CLRDATA_ADDRESS,
}

/// Memory region data.
pub struct SOSMemoryRegion {
    pub Start: CLRDATA_ADDRESS,
    pub Size: CLRDATA_ADDRESS,
    pub ExtraData: CLRDATA_ADDRESS,
    pub Heap: i32,
}

/// Method data for method enumeration.
pub struct SOSMethodData {
    pub MethodDesc: CLRDATA_ADDRESS,
    pub Entrypoint: CLRDATA_ADDRESS,
    pub DefiningMethodTable: CLRDATA_ADDRESS,
    pub DefiningModule: CLRDATA_ADDRESS,
    pub Token: u32,
    pub Slot: u32,
}

/// Thread store data - information about all managed threads.
/// Size: 0x38 bytes
#[derive(Debug, Clone, Default)]
pub struct DacpThreadStoreData {
    pub threadCount: i32,
    pub unstartedThreadCount: i32,
    pub backgroundThreadCount: i32,
    pub pendingThreadCount: i32,
    pub deadThreadCount: i32,
    pub firstThread: CLRDATA_ADDRESS,
    pub finalizerThread: CLRDATA_ADDRESS,
    pub gcThread: CLRDATA_ADDRESS,
    pub fHostConfig: u32,
}

/// AppDomain store data - information about all AppDomains.
/// Size: 0x18 bytes
#[derive(Debug, Clone, Default)]
pub struct DacpAppDomainStoreData {
    pub sharedDomain: CLRDATA_ADDRESS,
    pub systemDomain: CLRDATA_ADDRESS,
    pub DomainCount: i32,
}

/// AppDomain data stage enumeration.
#[derive(Debug, Clone, Copy, PartialEq, Eq, Default)]
pub enum DacpAppDomainDataStage {
    #[default]
    STAGE_CREATING,
    STAGE_READYFORMANAGEDCODE,
    STAGE_ACTIVE,
    STAGE_OPEN,
    STAGE_UNLOAD_REQUESTED,
    STAGE_EXITING,
    STAGE_EXITED,
    STAGE_FINALIZING,
    STAGE_FINALIZED,
    STAGE_HANDLETABLE_NOACCESS,
    STAGE_CLEARED,
    STAGE_COLLECTED,
    STAGE_CLOSED,
}

/// AppDomain data - information about a specific AppDomain.
/// Size: 0x48 bytes
#[derive(Debug, Clone, Default)]
pub struct DacpAppDomainData {
    pub AppDomainPtr: CLRDATA_ADDRESS,
    pub AppSecDesc: CLRDATA_ADDRESS,
    pub pLowFrequencyHeap: CLRDATA_ADDRESS,
    pub pHighFrequencyHeap: CLRDATA_ADDRESS,
    pub pStubHeap: CLRDATA_ADDRESS,
    pub DomainLocalBlock: CLRDATA_ADDRESS,
    pub pDomainLocalModules: CLRDATA_ADDRESS,
    pub dwId: u32,
    pub AssemblyCount: i32,
    pub FailedAssemblyCount: i32,
    pub appDomainStage: DacpAppDomainDataStage,
}

/// Assembly data - information about a loaded assembly.
/// Size: 0x40 bytes
#[derive(Debug, Clone, Default)]
pub struct DacpAssemblyData {
    pub AssemblyPtr: CLRDATA_ADDRESS,
    pub ClassLoader: CLRDATA_ADDRESS,
    pub ParentDomain: CLRDATA_ADDRESS,
    pub DomainPtr: CLRDATA_ADDRESS,
    pub AssemblySecDesc: CLRDATA_ADDRESS,
    pub isDynamic: i32,
    pub ModuleCount: u32,
    pub LoadContext: u32,
    pub isDomainNeutral: i32,
    pub dwLocationFlags: u32,
}

/// Module data - information about a loaded module.
/// Size: 0xa0 bytes
#[derive(Debug, Clone, Default)]
pub struct DacpModuleData {
    pub Address: CLRDATA_ADDRESS,
    pub PEAssembly: CLRDATA_ADDRESS,
    pub ilBase: CLRDATA_ADDRESS,
    pub metadataStart: CLRDATA_ADDRESS,
    pub metadataSize: u64,
    pub Assembly: CLRDATA_ADDRESS,
    pub bIsReflection: i32,
    pub bIsPEFile: i32,
    pub dwBaseClassIndex: u64,
    pub dwModuleID: u64,
    pub dwTransientFlags: u32,
    pub TypeDefToMethodTableMap: CLRDATA_ADDRESS,
    pub TypeRefToMethodTableMap: CLRDATA_ADDRESS,
    pub MethodDefToDescMap: CLRDATA_ADDRESS,
    pub FieldDefToDescMap: CLRDATA_ADDRESS,
    pub MemberRefToDescMap: CLRDATA_ADDRESS,
    pub FileReferencesMap: CLRDATA_ADDRESS,
    pub ManifestModuleReferencesMap: CLRDATA_ADDRESS,
    pub LoaderAllocator: CLRDATA_ADDRESS,
    pub ThunkHeap: CLRDATA_ADDRESS,
    pub dwModuleIndex: u64,
}

/// Thread data - information about a managed thread.
/// Size: 0x68 bytes
#[derive(Debug, Clone, Default)]
pub struct DacpThreadData {
    pub corThreadId: u32,
    pub osThreadId: u32,
    pub state: i32,
    pub preemptiveGCDisabled: u32,
    pub allocContextPtr: CLRDATA_ADDRESS,
    pub allocContextLimit: CLRDATA_ADDRESS,
    pub context: CLRDATA_ADDRESS,
    pub domain: CLRDATA_ADDRESS,
    pub pFrame: CLRDATA_ADDRESS,
    pub lockCount: u32,
    pub firstNestedException: CLRDATA_ADDRESS,
    pub teb: CLRDATA_ADDRESS,
    pub fiberData: CLRDATA_ADDRESS,
    pub lastThrownObjectHandle: CLRDATA_ADDRESS,
    pub nextThread: CLRDATA_ADDRESS,
}

/// ReJIT data flags.
#[derive(Debug, Clone, Copy, PartialEq, Eq, Default)]
pub enum DacpReJitDataFlags {
    #[default]
    kUnknown,
    kRequested,
    kActive,
    kReverted,
}

/// ReJIT data - information about a rejitted method.
#[derive(Debug, Clone, Default)]
pub struct DacpReJitData {
    pub rejitID: CLRDATA_ADDRESS,
    pub flags: DacpReJitDataFlags,
    pub NativeCodeAddr: CLRDATA_ADDRESS,
}

/// MethodDesc data - information about a method.
/// Size: 0x98 bytes
#[derive(Debug, Clone, Default)]
pub struct DacpMethodDescData {
    pub bHasNativeCode: i32,
    pub bIsDynamic: i32,
    pub wSlotNumber: u16,
    pub NativeCodeAddr: CLRDATA_ADDRESS,
    pub AddressOfNativeCodeSlot: CLRDATA_ADDRESS,
    pub MethodDescPtr: CLRDATA_ADDRESS,
    pub MethodTablePtr: CLRDATA_ADDRESS,
    pub ModulePtr: CLRDATA_ADDRESS,
    pub MDToken: u32,
    pub GCInfo: CLRDATA_ADDRESS,
    pub GCStressCodeCopy: CLRDATA_ADDRESS,
    pub managedDynamicMethodObject: CLRDATA_ADDRESS,
    pub requestedIP: CLRDATA_ADDRESS,
    pub rejitDataCurrent: DacpReJitData,
    pub rejitDataRequested: DacpReJitData,
    pub cJittedRejitVersions: u32,
}

/// JIT types enumeration.
#[derive(Debug, Clone, Copy, PartialEq, Eq, Default)]
pub enum JITTypes {
    #[default]
    TYPE_UNKNOWN,
    TYPE_JIT,
    TYPE_PJIT,
    TYPE_INTERPRETER,
}

/// Code header data - information about JIT compiled code.
/// Size: 0x38 bytes
#[derive(Debug, Clone, Default)]
pub struct DacpCodeHeaderData {
    pub GCInfo: CLRDATA_ADDRESS,
    pub JITType: JITTypes,
    pub MethodDescPtr: CLRDATA_ADDRESS,
    pub MethodStart: CLRDATA_ADDRESS,
    pub MethodSize: u32,
    pub ColdRegionStart: CLRDATA_ADDRESS,
    pub ColdRegionSize: u32,
    pub HotRegionSize: u32,
}

/// JIT manager info.
/// Size: 0x18 bytes
#[derive(Debug, Clone, Default)]
pub struct DacpJitManagerInfo {
    pub managerAddr: CLRDATA_ADDRESS,
    pub codeType: u32,
    pub ptrHeapList: CLRDATA_ADDRESS,
}

/// Threadpool data - information about the CLR thread pool.
/// Size: 0x58 bytes
#[derive(Debug, Clone, Default)]
pub struct DacpThreadpoolData {
    pub cpuUtilization: i32,
    pub NumIdleWorkerThreads: i32,
    pub NumWorkingWorkerThreads: i32,
    pub NumRetiredWorkerThreads: i32,
    pub MinLimitTotalWorkerThreads: i32,
    pub MaxLimitTotalWorkerThreads: i32,
    pub FirstUnmanagedWorkRequest: CLRDATA_ADDRESS,
    pub HillClimbingLog: CLRDATA_ADDRESS,
    pub HillClimbingLogFirstIndex: i32,
    pub HillClimbingLogSize: i32,
    pub NumTimers: u32,
    pub NumCPThreads: i32,
    pub NumFreeCPThreads: i32,
    pub MaxFreeCPThreads: i32,
    pub NumRetiredCPThreads: i32,
    pub MaxLimitTotalCPThreads: i32,
    pub CurrentLimitTotalCPThreads: i32,
    pub MinLimitTotalCPThreads: i32,
    pub AsyncTimerCallbackCompletionFPtr: CLRDATA_ADDRESS,
}

/// Work request data.
/// Size: 0x18 bytes
#[derive(Debug, Clone, Default)]
pub struct DacpWorkRequestData {
    pub Function: CLRDATA_ADDRESS,
    pub Context: CLRDATA_ADDRESS,
    pub NextWorkRequest: CLRDATA_ADDRESS,
}

/// Object type enumeration.
#[derive(Debug, Clone, Copy, PartialEq, Eq, Default)]
pub enum DacpObjectType {
    #[default]
    OBJ_STRING,
    OBJ_FREE,
    OBJ_OBJECT,
    OBJ_ARRAY,
    OBJ_OTHER,
}

/// Object data - information about a managed object.
/// Size: 0x60 bytes
#[derive(Debug, Clone, Default)]
pub struct DacpObjectData {
    pub MethodTable: CLRDATA_ADDRESS,
    pub ObjectType: DacpObjectType,
    pub Size: u64,
    pub ElementTypeHandle: CLRDATA_ADDRESS,
    pub ElementType: u32,
    pub dwRank: u32,
    pub dwNumComponents: u64,
    pub dwComponentSize: u64,
    pub ArrayDataPtr: CLRDATA_ADDRESS,
    pub ArrayBoundsPtr: CLRDATA_ADDRESS,
    pub ArrayLowerBoundsPtr: CLRDATA_ADDRESS,
    pub RCW: CLRDATA_ADDRESS,
    pub CCW: CLRDATA_ADDRESS,
}

/// MethodTable data - information about a type's method table.
/// Size: 0x48 bytes
#[derive(Debug, Clone, Default)]
pub struct DacpMethodTableData {
    pub bIsFree: i32,
    pub Module: CLRDATA_ADDRESS,
    pub Class: CLRDATA_ADDRESS,
    pub ParentMethodTable: CLRDATA_ADDRESS,
    pub wNumInterfaces: u16,
    pub wNumMethods: u16,
    pub wNumVtableSlots: u16,
    pub wNumVirtuals: u16,
    pub BaseSize: u32,
    pub ComponentSize: u32,
    pub cl: u32,
    pub dwAttrClass: u32,
    pub bIsShared: i32,
    pub bIsDynamic: i32,
    pub bContainsPointers: i32,
}

/// MethodTable field data.
/// Size: 0x18 bytes
#[derive(Debug, Clone, Default)]
pub struct DacpMethodTableFieldData {
    pub wNumInstanceFields: u16,
    pub wNumStaticFields: u16,
    pub wNumThreadStaticFields: u16,
    pub FirstField: CLRDATA_ADDRESS,
    pub wContextStaticOffset: u16,
    pub wContextStaticsSize: u16,
}

/// MethodTable transparency data.
/// Size: 0xc bytes
#[derive(Debug, Clone, Default)]
pub struct DacpMethodTableTransparencyData {
    pub bHasCriticalTransparentInfo: i32,
    pub bIsCritical: i32,
    pub bIsTreatAsSafe: i32,
}

/// Field descriptor data.
/// Size: 0x40 bytes
#[derive(Debug, Clone, Default)]
pub struct DacpFieldDescData {
    pub Type: u32,
    pub sigType: u32,
    pub MTOfType: CLRDATA_ADDRESS,
    pub ModuleOfType: CLRDATA_ADDRESS,
    pub TokenOfType: u32,
    pub mb: u32,
    pub MTOfEnclosingClass: CLRDATA_ADDRESS,
    pub dwOffset: u32,
    pub bIsThreadLocal: i32,
    pub bIsContextLocal: i32,
    pub bIsStatic: i32,
    pub NextField: CLRDATA_ADDRESS,
}

/// GC heap data - global GC information.
/// Size: 0x10 bytes
#[derive(Debug, Clone, Default)]
pub struct DacpGcHeapData {
    pub bServerMode: i32,
    pub bGcStructuresValid: i32,
    pub HeapCount: u32,
    pub g_max_generation: u32,
}

/// Generation data.
/// Size: 0x20 bytes
#[derive(Debug, Clone, Default)]
pub struct DacpGenerationData {
    pub start_segment: CLRDATA_ADDRESS,
    pub allocation_start: CLRDATA_ADDRESS,
    pub allocContextPtr: CLRDATA_ADDRESS,
    pub allocContextLimit: CLRDATA_ADDRESS,
}

/// GC heap details - detailed information about a GC heap.
/// Size: 0x120 bytes
#[derive(Debug, Clone, Default)]
pub struct DacpGcHeapDetails {
    pub heapAddr: CLRDATA_ADDRESS,
    pub alloc_allocated: CLRDATA_ADDRESS,
    pub mark_array: CLRDATA_ADDRESS,
    pub current_c_gc_state: CLRDATA_ADDRESS,
    pub next_sweep_obj: CLRDATA_ADDRESS,
    pub saved_sweep_ephemeral_seg: CLRDATA_ADDRESS,
    pub saved_sweep_ephemeral_start: CLRDATA_ADDRESS,
    pub background_saved_lowest_address: CLRDATA_ADDRESS,
    pub background_saved_highest_address: CLRDATA_ADDRESS,
    pub generation_table: [DacpGenerationData; DAC_NUMBERGENERATIONS],
    pub ephemeral_heap_segment: CLRDATA_ADDRESS,
    pub finalization_fill_pointers: [CLRDATA_ADDRESS; 7],
    pub lowest_address: CLRDATA_ADDRESS,
    pub highest_address: CLRDATA_ADDRESS,
    pub card_table: CLRDATA_ADDRESS,
}

/// Heap segment data.
/// Size: 0x58 bytes
#[derive(Debug, Clone, Default)]
pub struct DacpHeapSegmentData {
    pub segmentAddr: CLRDATA_ADDRESS,
    pub allocated: CLRDATA_ADDRESS,
    pub committed: CLRDATA_ADDRESS,
    pub reserved: CLRDATA_ADDRESS,
    pub used: CLRDATA_ADDRESS,
    pub mem: CLRDATA_ADDRESS,
    pub next: CLRDATA_ADDRESS,
    pub gc_heap: CLRDATA_ADDRESS,
    pub highAllocMark: CLRDATA_ADDRESS,
    pub flags: usize,
    pub background_allocated: CLRDATA_ADDRESS,
}

/// OOM (Out of Memory) data.
/// Size: 0x38 bytes
#[derive(Debug, Clone, Default)]
pub struct DacpOomData {
    pub reason: i32,
    pub alloc_size: u64,
    pub available_pagefile_mb: u64,
    pub gc_index: u64,
    pub fgm: i32,
    pub size: u64,
    pub loh_p: i32,
}

/// GC heap analyze data.
/// Size: 0x20 bytes
#[derive(Debug, Clone, Default)]
pub struct DacpGcHeapAnalyzeData {
    pub heapAddr: CLRDATA_ADDRESS,
    pub internal_root_array: CLRDATA_ADDRESS,
    pub internal_root_array_index: u64,
    pub heap_analyze_success: i32,
}

/// Domain local module data.
/// Size: 0x30 bytes
#[derive(Debug, Clone, Default)]
pub struct DacpDomainLocalModuleData {
    pub appDomainAddr: CLRDATA_ADDRESS,
    pub ModuleID: u64,
    pub pClassData: CLRDATA_ADDRESS,
    pub pDynamicClassTable: CLRDATA_ADDRESS,
    pub pGCStaticDataStart: CLRDATA_ADDRESS,
    pub pNonGCStaticDataStart: CLRDATA_ADDRESS,
}

/// Thread local module data.
/// Size: 0x30 bytes
#[derive(Debug, Clone, Default)]
pub struct DacpThreadLocalModuleData {
    pub threadAddr: CLRDATA_ADDRESS,
    pub ModuleIndex: u64,
    pub pClassData: CLRDATA_ADDRESS,
    pub pDynamicClassTable: CLRDATA_ADDRESS,
    pub pGCStaticDataStart: CLRDATA_ADDRESS,
    pub pNonGCStaticDataStart: CLRDATA_ADDRESS,
}

/// SyncBlock data.
/// Size: 0x48 bytes
#[derive(Debug, Clone, Default)]
pub struct DacpSyncBlockData {
    pub Object: CLRDATA_ADDRESS,
    pub bFree: i32,
    pub SyncBlockPointer: CLRDATA_ADDRESS,
    pub COMFlags: u32,
    pub MonitorHeld: u32,
    pub Recursion: u32,
    pub HoldingThread: CLRDATA_ADDRESS,
    pub AdditionalThreadCount: u32,
    pub appDomainPtr: CLRDATA_ADDRESS,
    pub SyncBlockCount: u32,
}

/// SyncBlock cleanup data.
/// Size: 0x28 bytes
#[derive(Debug, Clone, Default)]
pub struct DacpSyncBlockCleanupData {
    pub SyncBlockPointer: CLRDATA_ADDRESS,
    pub nextSyncBlock: CLRDATA_ADDRESS,
    pub blockRCW: CLRDATA_ADDRESS,
    pub blockClassFactory: CLRDATA_ADDRESS,
    pub blockCCW: CLRDATA_ADDRESS,
}

/// RCW (Runtime Callable Wrapper) data.
/// Size: 0x58 bytes
#[derive(Debug, Clone, Default)]
pub struct DacpRCWData {
    pub identityPointer: CLRDATA_ADDRESS,
    pub unknownPointer: CLRDATA_ADDRESS,
    pub managedObject: CLRDATA_ADDRESS,
    pub jupiterObject: CLRDATA_ADDRESS,
    pub vtablePtr: CLRDATA_ADDRESS,
    pub creatorThread: CLRDATA_ADDRESS,
    pub ctxCookie: CLRDATA_ADDRESS,
    pub refCount: i32,
    pub interfaceCount: i32,
    pub isJupiterObject: i32,
    pub supportsIInspectable: i32,
    pub isAggregated: i32,
    pub isContained: i32,
    pub isFreeThreaded: i32,
    pub isDisconnected: i32,
}

/// CCW (COM Callable Wrapper) data.
/// Size: 0x48 bytes
#[derive(Debug, Clone, Default)]
pub struct DacpCCWData {
    pub outerIUnknown: CLRDATA_ADDRESS,
    pub managedObject: CLRDATA_ADDRESS,
    pub handle: CLRDATA_ADDRESS,
    pub ccwAddress: CLRDATA_ADDRESS,
    pub refCount: i32,
    pub interfaceCount: i32,
    pub isNeutered: i32,
    pub jupiterRefCount: i32,
    pub isPegged: i32,
    pub isGlobalPegged: i32,
    pub hasStrongRef: i32,
    pub isExtendsCOMObject: i32,
    pub isAggregated: i32,
}

/// COM interface pointer data.
/// Size: 0x18 bytes
#[derive(Debug, Clone, Default)]
pub struct DacpCOMInterfacePointerData {
    pub methodTable: CLRDATA_ADDRESS,
    pub interfacePtr: CLRDATA_ADDRESS,
    pub comContext: CLRDATA_ADDRESS,
}

/// Useful globals data.
/// Size: 0x28 bytes
#[derive(Debug, Clone, Default)]
pub struct DacpUsefulGlobalsData {
    pub ArrayMethodTable: CLRDATA_ADDRESS,
    pub StringMethodTable: CLRDATA_ADDRESS,
    pub ObjectMethodTable: CLRDATA_ADDRESS,
    pub ExceptionMethodTable: CLRDATA_ADDRESS,
    pub FreeMethodTable: CLRDATA_ADDRESS,
}

/// Allocation data.
/// Size: 0x10 bytes
#[derive(Debug, Clone, Default)]
pub struct DacpAllocData {
    pub allocBytes: CLRDATA_ADDRESS,
    pub allocBytesLoh: CLRDATA_ADDRESS,
}

/// Generation allocation data.
/// Size: 0x40 bytes
#[derive(Debug, Clone, Default)]
pub struct DacpGenerationAllocData {
    pub allocData: [DacpAllocData; DAC_NUMBERGENERATIONS],
}

/// Code heap type enumeration.
#[derive(Debug, Clone, Copy, PartialEq, Eq, Default)]
pub enum CodeHeapType {
    #[default]
    CODEHEAP_LOADER,
    CODEHEAP_HOST,
    CODEHEAP_UNKNOWN,
}

/// JIT code heap info.
/// Size: 0x18 bytes
#[derive(Debug, Clone, Default)]
pub struct DacpJitCodeHeapInfo {
    pub codeHeapType: u32,
    pub address1: CLRDATA_ADDRESS,
    pub address2: CLRDATA_ADDRESS,
}

/// MethodDesc transparency data.
/// Size: 0xc bytes
#[derive(Debug, Clone, Default)]
pub struct DacpMethodDescTransparencyData {
    pub bHasCriticalTransparentInfo: i32,
    pub bIsCritical: i32,
    pub bIsTreatAsSafe: i32,
}

/// Exception object data.
/// Size: 0x38 bytes
#[derive(Debug, Clone, Default)]
pub struct DacpExceptionObjectData {
    pub Message: CLRDATA_ADDRESS,
    pub InnerException: CLRDATA_ADDRESS,
    pub StackTrace: CLRDATA_ADDRESS,
    pub WatsonBuckets: CLRDATA_ADDRESS,
    pub StackTraceString: CLRDATA_ADDRESS,
    pub RemoteStackTraceString: CLRDATA_ADDRESS,
    pub HResult: i32,
    pub XCode: i32,
}

/// GC interesting info data.
#[derive(Debug, Clone, Default)]
pub struct DacpGCInterestingInfoData {
    pub interestingDataPoints: [usize; DAC_NUM_GC_DATA_POINTS],
    pub compactReasons: [usize; DAC_MAX_COMPACT_REASONS_COUNT],
    pub expandMechanisms: [usize; DAC_MAX_EXPAND_MECHANISMS_COUNT],
    pub bitMechanisms: [usize; DAC_MAX_GC_MECHANISM_BITS_COUNT],
    pub globalMechanisms: [usize; DAC_MAX_GLOBAL_GC_MECHANISMS_COUNT],
}

/// Optimization tier enumeration.
#[derive(Debug, Clone, Copy, PartialEq, Eq, Default)]
pub enum OptimizationTier {
    #[default]
    OptimizationTier_Unknown,
    OptimizationTier_MinOptJitted,
    OptimizationTier_Optimized,
    OptimizationTier_QuickJitted,
    OptimizationTier_OptimizedTier1,
    OptimizationTier_ReadyToRun,
    OptimizationTier_OptimizedTier1OSR,
    OptimizationTier_QuickJittedInstrumented,
    OptimizationTier_OptimizedTier1Instrumented,
}

/// Tiered version data.
#[derive(Debug, Clone, Default)]
pub struct DacpTieredVersionData {
    pub NativeCodeAddr: CLRDATA_ADDRESS,
    pub OptimizationTier: OptimizationTier,
    pub NativeCodeVersionNodePtr: CLRDATA_ADDRESS,
}

/// MethodTable collectible data.
/// Size: 0x10 bytes
#[derive(Debug, Clone, Default)]
pub struct DacpMethodTableCollectibleData {
    pub LoaderAllocatorObjectHandle: CLRDATA_ADDRESS,
    pub bCollectible: i32,
}

/// ReJIT data 2 flags.
#[derive(Debug, Clone, Copy, PartialEq, Eq, Default)]
pub enum DacpReJitData2Flags {
    #[default]
    kUnknown,
    kRequested,
    kActive,
    kReverted,
}

/// ReJIT data 2.
#[derive(Debug, Clone, Default)]
pub struct DacpReJitData2 {
    pub rejitID: u32,
    pub flags: DacpReJitData2Flags,
    pub il: CLRDATA_ADDRESS,
    pub ilCodeVersionNodePtr: CLRDATA_ADDRESS,
}

/// Profiler IL modification type.
#[derive(Debug, Clone, Copy, PartialEq, Eq, Default)]
pub enum ProfilerILModificationType {
    #[default]
    Unmodified,
    ILModified,
    ReJITModified,
}

/// Profiler IL data.
#[derive(Debug, Clone, Default)]
pub struct DacpProfilerILData {
    pub modificationType: ProfilerILModificationType,
    pub il: CLRDATA_ADDRESS,
    pub rejitID: u32,
}

/// EH clause type enumeration.
#[derive(Debug, Clone, Copy, PartialEq, Eq, Default)]
pub enum EHClauseType {
    #[default]
    EHFault,
    EHFinally,
    EHFilter,
    EHTyped,
    EHUnknown,
}

/// Exception handling info.
/// Size: 0x58 bytes
#[derive(Debug, Clone, Default)]
pub struct DACEHInfo {
    pub clauseType: EHClauseType,
    pub tryStartOffset: CLRDATA_ADDRESS,
    pub tryEndOffset: CLRDATA_ADDRESS,
    pub handlerStartOffset: CLRDATA_ADDRESS,
    pub handlerEndOffset: CLRDATA_ADDRESS,
    pub isDuplicateClause: i32,
    pub filterOffset: CLRDATA_ADDRESS,
    pub isCatchAllHandler: i32,
    pub moduleAddr: CLRDATA_ADDRESS,
    pub mtCatch: CLRDATA_ADDRESS,
    pub tokCatch: u32,
}

/// Module map type enumeration.
#[derive(Debug, Clone, Copy, PartialEq, Eq)]
pub enum ModuleMapType {
    TYPEDEFTOMETHODTABLE,
    TYPEREFTOMETHODTABLE,
}

/// Virtual call stub heap type.
#[derive(Debug, Clone, Copy, PartialEq, Eq)]
pub enum VCSHeapType {
    IndcellHeap,
    LookupHeap,
    ResolveHeap,
    DispatchHeap,
    CacheEntryHeap,
    VtableHeap,
}

/// Loader heap kind.
#[derive(Debug, Clone, Copy, PartialEq, Eq)]
pub enum LoaderHeapKind {
    LoaderHeapKindNormal,
    LoaderHeapKindExplicitControl,
}

/// Method table initialization flags.
#[derive(Debug, Clone, Copy, PartialEq, Eq)]
pub enum MethodTableInitializationFlags {
    MethodTableInitialized,
    MethodTableInitializationFailed,
}

} // verus!
