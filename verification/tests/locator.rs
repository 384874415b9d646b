//! Behavior of inspection-library (DAC) path selection, and of the status
//! and identifier constants.

use mscoree::dac::{dac_candidate, dac_file_for};
use mscoree::guids::{CLSID_CLRMetaHost, IID_ICLRDataTarget, IID_IXCLRDataProcess};
use mscoree::hresult::{succeeded, E_FAIL, E_NOINTERFACE, E_NOTIMPL, S_FALSE, S_OK};

#[test]
fn core_runtime_gets_the_core_engine() {
    let r = dac_candidate(b"C:\\dotnet\\shared\\coreclr.dll");
    assert_eq!(r, Some(b"C:\\dotnet\\shared\\mscordaccore.dll".to_vec()));
}

#[test]
fn framework_runtime_gets_the_workstation_engine() {
    let r = dac_candidate(b"C:\\Windows\\Microsoft.NET\\clr.dll");
    assert_eq!(r, Some(b"C:\\Windows\\Microsoft.NET\\mscordacwks.dll".to_vec()));
}

#[test]
fn core_runtime_is_recognized_before_the_framework_suffix() {
    // "coreclr.dll" also ends in "clr.dll"; the core engine must win.
    assert_eq!(dac_file_for(b"coreclr.dll"), Some(b"mscordaccore.dll".to_vec()));
}

#[test]
fn runtime_detection_is_case_insensitive() {
    assert_eq!(dac_file_for(b"D:\\x\\CoreCLR.DLL"), Some(b"mscordaccore.dll".to_vec()));
    assert_eq!(dac_file_for(b"D:\\x\\CLR.dll"), Some(b"mscordacwks.dll".to_vec()));
}

#[test]
fn other_modules_are_not_runtimes() {
    assert_eq!(dac_file_for(b"C:\\x\\kernel32.dll"), None);
    assert_eq!(dac_candidate(b"C:\\x\\user32.dll"), None);
    assert_eq!(dac_candidate(b""), None);
}

#[test]
fn a_bare_runtime_name_yields_a_bare_engine_name() {
    assert_eq!(dac_candidate(b"clr.dll"), Some(b"mscordacwks.dll".to_vec()));
}

#[test]
fn status_codes_have_their_published_values() {
    assert_eq!(S_OK, 0);
    assert_eq!(S_FALSE, 1);
    assert_eq!(E_FAIL, 0x80004005u32 as i32);
    assert_eq!(E_NOTIMPL, 0x80004001u32 as i32);
    assert_eq!(E_NOINTERFACE, 0x80004002u32 as i32);
}

#[test]
fn success_is_a_non_negative_status() {
    assert!(succeeded(S_OK));
    assert!(succeeded(S_FALSE));
    assert!(!succeeded(E_FAIL));
    assert!(!succeeded(E_NOTIMPL));
}

#[test]
fn identifiers_have_their_published_values() {
    assert_eq!(IID_ICLRDataTarget, 0x3e11ccee_d08b_43e5_af01_32717a64da03);
    assert_eq!(IID_IXCLRDataProcess, 0x5c552ab6_fc09_4cb3_8e36_22fa03c798b7);
    assert_eq!(CLSID_CLRMetaHost, 0x9280188d_0e8e_4867_b30c_7fa83884e8de);
}
