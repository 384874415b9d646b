//! Data types of the managed-debugging portion of the foreign contract.
//!
//! These enumerations describe debugger interface versions, stepping,
//! thread state, and value element types as the contract publishes them.

use vstd::prelude::*;

verus! {

/// CorDebugInterfaceVersion - Version of the debugging interface
#[derive(Debug, Clone, Copy, PartialEq, Eq)]
pub enum CorDebugInterfaceVersion {
    CorDebugInvalidVersion,
    CorDebugVersion_1_0,
    CorDebugVersion_1_1,
    CorDebugVersion_2_0,
    CorDebugVersion_4_0,
    CorDebugVersion_4_5,
    // Note: CorDebugLatestVersion is an alias for the latest version (4_5)
}

/// CorDebugCreateProcessFlags
#[derive(Debug, Clone, Copy, PartialEq, Eq)]
pub enum CorDebugCreateProcessFlags {
    DEBUG_NO_SPECIAL_OPTIONS,
}

/// ICorDebug2 - Extended debugging interface.
///
/// The contract declares this capability with no operations of its own.
pub trait ICorDebug2 {
}



/// CorDebugStepReason - Reason for a step complete
#[derive(Debug, Clone, Copy, PartialEq, Eq)]
pub enum CorDebugStepReason {
    STEP_NORMAL,
    STEP_RETURN,
    STEP_CALL,
    STEP_EXCEPTION_FILTER,
    STEP_EXCEPTION_HANDLER,
    STEP_INTERCEPT,
    STEP_EXIT,
}

/// CorDebugExceptionCallbackType - Type of exception callback
#[derive(Debug, Clone, Copy, PartialEq, Eq)]
pub enum CorDebugExceptionCallbackType {
    DEBUG_EXCEPTION_FIRST_CHANCE,
    DEBUG_EXCEPTION_USER_FIRST_CHANCE,
    DEBUG_EXCEPTION_CATCH_HANDLER_FOUND,
    DEBUG_EXCEPTION_UNHANDLED,
}



/// CorDebugChainReason - Reason for a chain
#[derive(Debug, Clone, Copy, PartialEq, Eq)]
pub enum CorDebugChainReason {
    CHAIN_NONE,
    CHAIN_CLASS_INIT,
    CHAIN_EXCEPTION_FILTER,
    CHAIN_SECURITY,
    CHAIN_CONTEXT_POLICY,
    CHAIN_INTERCEPTION,
    CHAIN_PROCESS_START,
    CHAIN_THREAD_START,
    CHAIN_ENTER_MANAGED,
    CHAIN_ENTER_UNMANAGED,
    CHAIN_DEBUGGER_EVAL,
    CHAIN_CONTEXT_SWITCH,
    CHAIN_FUNC_EVAL,
}



/// CorDebugMappingResult - Result of IL to native mapping
#[derive(Debug, Clone, Copy, PartialEq, Eq)]
pub enum CorDebugMappingResult {
    MAPPING_PROLOG,
    MAPPING_EPILOG,
    MAPPING_NO_INFO,
    MAPPING_UNMAPPED_ADDRESS,
    MAPPING_EXACT,
    MAPPING_APPROXIMATE,
}



/// CorDebugThreadState - State of a thread for debugging
#[derive(Debug, Clone, Copy, PartialEq, Eq)]
pub enum CorDebugThreadState {
    THREAD_RUN,
    THREAD_SUSPEND,
}

/// CorDebugStateChange - Type of state change
#[derive(Debug, Clone, Copy, PartialEq, Eq)]
pub enum CorDebugStateChange {
    PROCESS_RUNNING,
    FLUSH_ALL,
}



/// CorDebugUnmappedStop - Unmapped stop options
#[derive(Debug, Clone, Copy, PartialEq, Eq)]
pub enum CorDebugUnmappedStop {
    STOP_NONE,
    STOP_PROLOG,
    STOP_EPILOG,
    STOP_NO_MAPPING_INFO,
    STOP_OTHER_UNMAPPED,
    STOP_UNMANAGED,
    STOP_ALL,
}

/// CorDebugIntercept - Intercept options
#[derive(Debug, Clone, Copy, PartialEq, Eq)]
pub enum CorDebugIntercept {
    INTERCEPT_NONE,
    INTERCEPT_CLASS_INIT,
    INTERCEPT_EXCEPTION_FILTER,
    INTERCEPT_SECURITY,
    INTERCEPT_CONTEXT_POLICY,
    INTERCEPT_INTERCEPTION,
    INTERCEPT_ALL,
}



/// CorDebugUserState - User state of a thread
#[derive(Debug, Clone, Copy, PartialEq, Eq)]
pub enum CorDebugUserState {
    USER_STOP_REQUESTED,
    USER_SUSPEND_REQUESTED,
    USER_BACKGROUND,
    USER_UNSTARTED,
    USER_STOPPED,
    USER_WAIT_SLEEP_JOIN,
    USER_SUSPENDED,
    USER_UNSAFE_POINT,
    USER_THREADPOOL,
}



/// CorElementType - Element types for values
#[derive(Debug, Clone, Copy, PartialEq, Eq)]
pub enum CorElementType {
    ELEMENT_TYPE_END,
    ELEMENT_TYPE_VOID,
    ELEMENT_TYPE_BOOLEAN,
    ELEMENT_TYPE_CHAR,
    ELEMENT_TYPE_I1,
    ELEMENT_TYPE_U1,
    ELEMENT_TYPE_I2,
    ELEMENT_TYPE_U2,
    ELEMENT_TYPE_I4,
    ELEMENT_TYPE_U4,
    ELEMENT_TYPE_I8,
    ELEMENT_TYPE_U8,
    ELEMENT_TYPE_R4,
    ELEMENT_TYPE_R8,
    ELEMENT_TYPE_STRING,
    ELEMENT_TYPE_PTR,
    ELEMENT_TYPE_BYREF,
    ELEMENT_TYPE_VALUETYPE,
    ELEMENT_TYPE_CLASS,
    ELEMENT_TYPE_VAR,
    ELEMENT_TYPE_ARRAY,
    ELEMENT_TYPE_GENERICINST,
    ELEMENT_TYPE_TYPEDBYREF,
    ELEMENT_TYPE_I,
    ELEMENT_TYPE_U,
    ELEMENT_TYPE_FNPTR,
    ELEMENT_TYPE_OBJECT,
    ELEMENT_TYPE_SZARRAY,
    ELEMENT_TYPE_MVAR,
}

} // verus!
