//! Data types of the assembly-cache (fusion) portion of the foreign
//! contract.

use vstd::prelude::*;

verus! {

/// Assembly cache install flags.
#[derive(Debug, Copy, Clone, PartialEq, Eq)]
pub enum ASM_CACHE_FLAGS {
    /// The GAC cache.
    ASM_CACHE_ZAP,
    /// The GAC.
    ASM_CACHE_GAC,
    /// The download cache.
    ASM_CACHE_DOWNLOAD,
    /// Root GAC (CLR 4.0+).
    ASM_CACHE_ROOT,
    /// Root ex GAC.
    ASM_CACHE_ROOT_EX,
}

/// Assembly name display flags.
#[derive(Debug, Copy, Clone, PartialEq, Eq)]
pub enum ASM_DISPLAY_FLAGS {
    VERSION,
    CULTURE,
    PUBLIC_KEY_TOKEN,
    PUBLIC_KEY,
    CUSTOM,
    PROCESSORARCHITECTURE,
    LANGUAGEID,
    RETARGET,
    CONFIG_MASK,
    MVID,
    CONTENT_TYPE,
}

/// Assembly name property enumeration.
#[derive(Debug, Copy, Clone, PartialEq, Eq)]
pub enum ASM_NAME {
    PUBLIC_KEY,
    PUBLIC_KEY_TOKEN,
    HASH_VALUE,
    NAME,
    MAJOR_VERSION,
    MINOR_VERSION,
    BUILD_NUMBER,
    REVISION_NUMBER,
    CULTURE,
    PROCESSOR_ID_ARRAY,
    OSINFO_ARRAY,
    HASH_ALGID,
    ALIAS,
    CODEBASE_URL,
    CODEBASE_LASTMOD,
    NULL_PUBLIC_KEY,
    NULL_PUBLIC_KEY_TOKEN,
    CUSTOM,
    NULL_CUSTOM,
    MVID,
    FILE_MAJOR_VERSION,
    FILE_MINOR_VERSION,
    FILE_BUILD_NUMBER,
    FILE_REVISION_NUMBER,
    RETARGET,
    SIGNATURE_BLOB,
    CONFIG_MASK,
    ARCHITECTURE,
    CONTENT_TYPE,
    MAX_PARAMS,
}

/// Size in bytes of the foreign ASSEMBLY_INFO record on a 64-bit host,
/// which a caller reports in `cbAssemblyInfo`.
pub const ASSEMBLY_INFO_SIZE: u32 = 32;

/// ASSEMBLY_INFO structure for assembly cache queries.  The path buffer
/// crosses the foreign boundary as a raw wide-string pointer; it is
/// carried here as a plain address value (0 when absent).
#[derive(Debug, Clone)]
pub struct ASSEMBLY_INFO {
    pub cbAssemblyInfo: u32,
    pub dwAssemblyFlags: u32,
    pub uliAssemblySizeInKB: u64,
    pub pszCurrentAssemblyPathBuf: u64,
    pub cchBuf: u32,
}

impl Default for ASSEMBLY_INFO {
    /// A fresh query record: its own size filled in, everything else
    /// zeroed, no path buffer supplied.
    fn default() -> (r: Self)
        ensures
            r.cbAssemblyInfo == ASSEMBLY_INFO_SIZE,
            r.dwAssemblyFlags == 0,
            r.uliAssemblySizeInKB == 0,
            r.pszCurrentAssemblyPathBuf == 0,
            r.cchBuf == 0,
    {
        ASSEMBLY_INFO {
            cbAssemblyInfo: ASSEMBLY_INFO_SIZE,
            dwAssemblyFlags: 0,
            uliAssemblySizeInKB: 0,
            pszCurrentAssemblyPathBuf: 0,
            cchBuf: 0,
        }
    }
}

} // verus!
