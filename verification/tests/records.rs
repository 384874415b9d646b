//! Smoke tests over the mirrored contract data types.

use mscoree::clr_debugging::CLR_DEBUGGING_VERSION;
use mscoree::cor_debug::CorElementType;
use mscoree::fusion::{ASSEMBLY_INFO, ASSEMBLY_INFO_SIZE};
use mscoree::sos_dac::{
    DacpAppDomainData, DacpAppDomainDataStage, DacpGcHeapData, DacpModuleData,
    DAC_NUMBERGENERATIONS,
};
use mscoree::xclr_data::{CLRDataAddressType, EXCEPTION_RECORD64};

#[test]
fn assembly_info_default_reports_its_own_size() {
    let info = ASSEMBLY_INFO::default();
    assert_eq!(info.cbAssemblyInfo, ASSEMBLY_INFO_SIZE);
    assert_eq!(info.dwAssemblyFlags, 0);
    assert_eq!(info.uliAssemblySizeInKB, 0);
    assert_eq!(info.pszCurrentAssemblyPathBuf, 0);
    assert_eq!(info.cchBuf, 0);
}

#[test]
fn records_default_to_zeroed_fields() {
    let v = CLR_DEBUGGING_VERSION::default();
    assert_eq!(
        (v.wStructVersion, v.wMajor, v.wMinor, v.wBuild, v.wRevision),
        (0, 0, 0, 0, 0)
    );

    let m = DacpModuleData::default();
    assert_eq!(m.Address, 0);
    assert_eq!(m.metadataSize, 0);

    let d = DacpAppDomainData::default();
    assert_eq!(d.dwId, 0);
    assert!(matches!(d.appDomainStage, DacpAppDomainDataStage::STAGE_CREATING));
}

#[test]
fn exception_record_carries_fifteen_parameters() {
    let r = EXCEPTION_RECORD64 {
        ExceptionCode: 0xC0000005,
        ExceptionFlags: 0,
        ExceptionRecord: 0,
        ExceptionAddress: 0x7000,
        NumberParameters: 2,
        __unusedAlignment: 0,
        ExceptionInformation: [0; 15],
    };
    assert_eq!(r.ExceptionInformation.len(), 15);
    assert_eq!(r.ExceptionAddress, 0x7000);
}

#[test]
fn gc_heap_data_spans_the_generations() {
    let g = DacpGcHeapData::default();
    assert_eq!(DAC_NUMBERGENERATIONS, 4);
    assert!(!format!("{:?}", g).is_empty());
}

#[test]
fn contract_enumerations_are_usable() {
    let e = CorElementType::ELEMENT_TYPE_I4;
    assert_eq!(e, CorElementType::ELEMENT_TYPE_I4);
    assert!(matches!(
        CLRDataAddressType::CLRDATA_ADDRESS_MANAGED_METHOD,
        CLRDataAddressType::CLRDATA_ADDRESS_MANAGED_METHOD
    ));
}
