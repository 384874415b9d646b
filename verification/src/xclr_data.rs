//! Data types of the engine's process-inspection surface.
//!
//! Flags, frame classifications, and record layouts used by the engine's
//! process, task, and method queries, together with the opaque cursor
//! handle type of its enumerations.

use vstd::prelude::*;

use crate::data_target::CLRDATA_ADDRESS;

verus! {

/// Opaque handle type for CLR data enumerations.
pub type CLRDATA_ENUM = u64;

/// Buffer for follow-stub operations.
pub struct CLRDATA_FOLLOW_STUB_BUFFER {
    pub Data: [u64; 8],
}

/// Address range structure.
pub struct CLRDATA_ADDRESS_RANGE {
    pub startAddress: CLRDATA_ADDRESS,
    pub endAddress: CLRDATA_ADDRESS,
}

/// Exception record structure (64-bit).
pub struct EXCEPTION_RECORD64 {
    pub ExceptionCode: u32,
    pub ExceptionFlags: u32,
    pub ExceptionRecord: u64,
    pub ExceptionAddress: u64,
    pub NumberParameters: u32,
    pub __unusedAlignment: u32,
    pub ExceptionInformation: [u64; 15], // EXCEPTION_MAXIMUM_PARAMETERS
}

/// CLR data address type enumeration.
#[derive(Debug, Clone, Copy, PartialEq, Eq)]
pub enum CLRDataAddressType {
    CLRDATA_ADDRESS_UNRECOGNIZED,
    CLRDATA_ADDRESS_MANAGED_METHOD,
    CLRDATA_ADDRESS_RUNTIME_MANAGED_CODE,
    CLRDATA_ADDRESS_RUNTIME_UNMANAGED_CODE,
    CLRDATA_ADDRESS_GC_DATA,
    CLRDATA_ADDRESS_RUNTIME_MANAGED_STUB,
    CLRDATA_ADDRESS_RUNTIME_UNMANAGED_STUB,
}

/// IXCLRDataMethodInstance - Represents a method instance.  The contract
/// declares this capability; the engine implements it.
pub trait IXCLRDataMethodInstance {
}

/// IXCLRDataTypeInstance - Represents a type instance.  The contract
/// declares this capability; the engine implements it.
pub trait IXCLRDataTypeInstance {
}



/// CLR data process flags.
#[derive(Debug, Clone, Copy, PartialEq, Eq)]
pub enum CLRDataProcessFlag {
    CLRDATA_PROCESS_DEFAULT,
    CLRDATA_PROCESS_IN_GC,
}

/// CLR data app domain flags.
#[derive(Debug, Clone, Copy, PartialEq, Eq)]
pub enum CLRDataAppDomainFlag {
    CLRDATA_DOMAIN_DEFAULT,
}

/// CLR data task flags.
#[derive(Debug, Clone, Copy, PartialEq, Eq)]
pub enum CLRDataTaskFlag {
    CLRDATA_TASK_DEFAULT,
    CLRDATA_TASK_WAITING_FOR_GC,
}

/// CLR data type flags.
#[derive(Debug, Clone, Copy, PartialEq, Eq)]
pub enum CLRDataTypeFlag {
    CLRDATA_TYPE_DEFAULT,
    CLRDATA_TYPE_IS_PRIMITIVE,
    CLRDATA_TYPE_IS_VALUE_TYPE,
    CLRDATA_TYPE_IS_STRING,
    CLRDATA_TYPE_IS_ARRAY,
    CLRDATA_TYPE_IS_REFERENCE,
    CLRDATA_TYPE_IS_POINTER,
    CLRDATA_TYPE_IS_ENUM,
    CLRDATA_TYPE_ALL_KINDS,
}

/// CLR data field flags.
#[derive(Debug, Clone, Copy, PartialEq, Eq)]
pub enum CLRDataFieldFlag {
    CLRDATA_FIELD_DEFAULT,
    CLRDATA_FIELD_IS_PRIMITIVE,
    CLRDATA_FIELD_IS_VALUE_TYPE,
    CLRDATA_FIELD_IS_STRING,
    CLRDATA_FIELD_IS_ARRAY,
    CLRDATA_FIELD_IS_REFERENCE,
    CLRDATA_FIELD_IS_POINTER,
    CLRDATA_FIELD_IS_ENUM,
    CLRDATA_FIELD_ALL_KINDS,
    CLRDATA_FIELD_IS_INHERITED,
    CLRDATA_FIELD_IS_LITERAL,
    CLRDATA_FIELD_FROM_INSTANCE,
    CLRDATA_FIELD_FROM_TASK_LOCAL,
    CLRDATA_FIELD_FROM_STATIC,
    CLRDATA_FIELD_ALL_LOCATIONS,
    CLRDATA_FIELD_ALL_FIELDS,
}

/// CLR data value flags.
#[derive(Debug, Clone, Copy, PartialEq, Eq)]
pub enum CLRDataValueFlag {
    CLRDATA_VALUE_DEFAULT,
    CLRDATA_VALUE_IS_PRIMITIVE,
    CLRDATA_VALUE_IS_VALUE_TYPE,
    CLRDATA_VALUE_IS_STRING,
    CLRDATA_VALUE_IS_ARRAY,
    CLRDATA_VALUE_IS_REFERENCE,
    CLRDATA_VALUE_IS_POINTER,
    CLRDATA_VALUE_IS_ENUM,
    CLRDATA_VALUE_ALL_KINDS,
    CLRDATA_VALUE_IS_INHERITED,
    CLRDATA_VALUE_IS_LITERAL,
    CLRDATA_VALUE_FROM_INSTANCE,
    CLRDATA_VALUE_FROM_TASK_LOCAL,
    CLRDATA_VALUE_FROM_STATIC,
    CLRDATA_VALUE_ALL_LOCATIONS,
    CLRDATA_VALUE_ALL_FIELDS,
    CLRDATA_VALUE_IS_BOXED,
}

/// CLR data by-name flags.
#[derive(Debug, Clone, Copy, PartialEq, Eq)]
pub enum CLRDataByNameFlag {
    CLRDATA_BYNAME_CASE_SENSITIVE,
    CLRDATA_BYNAME_CASE_INSENSITIVE,
}

/// CLR data get-name flags.
#[derive(Debug, Clone, Copy, PartialEq, Eq)]
pub enum CLRDataGetNameFlag {
    CLRDATA_GETNAME_DEFAULT,
    CLRDATA_GETNAME_NO_NAMESPACES,
    CLRDATA_GETNAME_NO_PARAMETERS,
}

/// Simple frame type enumeration.
#[derive(Debug, Clone, Copy, PartialEq, Eq)]
pub enum CLRDataSimpleFrameType {
    CLRDATA_SIMPFRAME_UNRECOGNIZED,
    CLRDATA_SIMPFRAME_MANAGED_METHOD,
    CLRDATA_SIMPFRAME_RUNTIME_MANAGED_CODE,
    CLRDATA_SIMPFRAME_RUNTIME_UNMANAGED_CODE,
}

/// Detailed frame type enumeration.
#[derive(Debug, Clone, Copy, PartialEq, Eq)]
pub enum CLRDataDetailedFrameType {
    CLRDATA_DETFRAME_UNRECOGNIZED,
    CLRDATA_DETFRAME_UNKNOWN_STUB,
    CLRDATA_DETFRAME_CLASS_INIT,
    CLRDATA_DETFRAME_EXCEPTION_FILTER,
    CLRDATA_DETFRAME_SECURITY,
    CLRDATA_DETFRAME_CONTEXT_POLICY,
    CLRDATA_DETFRAME_INTERCEPTION,
    CLRDATA_DETFRAME_PROCESS_START,
    CLRDATA_DETFRAME_THREAD_START,
    CLRDATA_DETFRAME_TRANSITION_TO_MANAGED,
    CLRDATA_DETFRAME_TRANSITION_TO_UNMANAGED,
    CLRDATA_DETFRAME_COM_INTEROP_STUB,
    CLRDATA_DETFRAME_DEBUGGER_EVAL,
    CLRDATA_DETFRAME_CONTEXT_SWITCH,
    CLRDATA_DETFRAME_FUNC_EVAL,
    CLRDATA_DETFRAME_FINALLY,
}

/// Method extent types.
#[derive(Debug, Clone, Copy, PartialEq, Eq)]
pub enum CLRDataMethodExtentType {
    CYCLER_DATA_METHEXT_UNKNOWN,
    CLRDATA_METHEXT_IL,
    CLRDATA_METHEXT_NATIVE_CODE,
    CLRDATA_METHEXT_NATIVE_COLD_CODE,
}

/// Module flags.
#[derive(Debug, Clone, Copy, PartialEq, Eq)]
pub enum CLRDataModuleFlag {
    CLRDATA_MODULE_DEFAULT,
    CLRDATA_MODULE_IS_DYNAMIC,
    CLRDATA_MODULE_IS_MEMORY,
    CLRDATA_MODULE_IS_MAIN_MODULE,
}

/// Assembly flags.
#[derive(Debug, Clone, Copy, PartialEq, Eq)]
pub enum CLRDataAssemblyFlag {
    CLRDATA_ASSEMBLY_DEFAULT,
}

/// Stack walk context flags.
#[derive(Debug, Clone, Copy, PartialEq, Eq)]
pub enum CLRDataStackWalkContext {
    CLRDATA_STACK_SET_UNWIND_CONTEXT,
    CLRDATA_STACK_SET_CURRENT_CONTEXT,
}

/// Exception state flags.
#[derive(Debug, Clone, Copy, PartialEq, Eq)]
pub enum CLRDataExceptionStateFlag {
    CYCLER_DATA_EXCEPTION_DEFAULT,
    CLRDATA_EXCEPTION_PARTIAL,
    CLRDATA_EXCEPTION_NESTED,
}

/// Exception notification flags.
#[derive(Debug, Clone, Copy, PartialEq, Eq)]
pub enum CLRDataExceptionNotificationFlag {
    CYCLER_DATA_NOTIFY_ON_MODULE_LOAD,
    CLRDATA_NOTIFY_ON_MODULE_UNLOAD,
    CLRDATA_NOTIFY_ON_EXCEPTION,
    CLRDATA_NOTIFY_ON_EXCEPTION_CATCH_ENTER,
}

/// Source type for method extent.
#[derive(Debug, Clone, Copy, PartialEq, Eq)]
pub enum CLRDataSourceType {
    CLRDATA_SOURCE_TYPE_UNDEFINED,
}

/// Method definition extent structure.
#[derive(Debug, Clone, Copy)]
pub struct CLRDATA_METHDEF_EXTENT {
    pub startAddress: CLRDATA_ADDRESS,
    pub endAddress: CLRDATA_ADDRESS,
    pub enCVersion: u32,
    pub typ: CLRDataMethodExtentType,
}

/// IL to address map entry.
#[derive(Debug, Clone, Copy)]
pub struct CLRDATA_IL_ADDRESS_MAP {
    pub ilOffset: u32,
    pub startAddress: CLRDATA_ADDRESS,
    pub endAddress: CLRDATA_ADDRESS,
    pub typ: CLRDataMethodExtentType,
}

/// GC event types.
#[derive(Debug, Clone, Copy, PartialEq, Eq)]
pub enum GcEvt_t {
    GC_MARK_END,
}

/// GC event arguments.
#[derive(Debug, Clone, Copy)]
pub struct GcEvtArgs {
    pub typ: GcEvt_t,
    pub condemnedGeneration: i32,
}

} // verus!
