//! Behavior of the data-target object: lifetime, capability negotiation,
//! fixed properties, memory-transfer outcomes, and the end-to-end
//! image-base scenario.

use mscoree::data_target::{LiveProcessDataTarget, IMAGE_FILE_MACHINE_AMD64};
use mscoree::guids::{IID_ICLRDataTarget, IID_IUnknown, IID_IXCLRDataProcess};
use mscoree::hresult::{E_FAIL, E_NOINTERFACE, E_NOTIMPL, S_OK};
use mscoree::module_cache::ModuleEntry;

fn listing(mods: &[(&[u8], u64)]) -> Vec<ModuleEntry> {
    mods.iter()
        .map(|(name, base)| ModuleEntry { name: name.to_vec(), base: *base })
        .collect()
}

#[test]
fn new_target_holds_one_reference() {
    let t = LiveProcessDataTarget::new();
    assert_eq!(t.ref_count, 1);
    assert_eq!(t.machine_type, IMAGE_FILE_MACHINE_AMD64);
    assert_eq!(t.pointer_size, 8);
}

#[test]
fn machine_type_and_pointer_size_are_fixed() {
    let t = LiveProcessDataTarget::new();
    assert_eq!(t.get_machine_type(), (S_OK, 0x8664));
    assert_eq!(t.get_pointer_size(), (S_OK, 8));
}

#[test]
fn refcount_round_trip() {
    let mut t = LiveProcessDataTarget::new();
    let before = t.ref_count;
    let n = 25;
    for _ in 0..n {
        t.add_ref();
    }
    assert_eq!(t.ref_count, before + n);
    for _ in 0..n {
        t.release();
    }
    assert_eq!(t.ref_count, before);
}

#[test]
fn add_ref_and_release_report_the_new_count() {
    let mut t = LiveProcessDataTarget::new();
    assert_eq!(t.add_ref(), 2);
    assert_eq!(t.add_ref(), 3);
    assert_eq!(t.release(), 2);
    assert_eq!(t.release(), 1);
    assert_eq!(t.release(), 0);
}

#[test]
fn query_interface_grants_known_capabilities() {
    let mut t = LiveProcessDataTarget::new();
    assert_eq!(t.query_interface(IID_IUnknown), (S_OK, true));
    assert_eq!(t.ref_count, 2);
    assert_eq!(t.query_interface(IID_ICLRDataTarget), (S_OK, true));
    assert_eq!(t.ref_count, 3);
}

#[test]
fn query_interface_refuses_other_capabilities() {
    let mut t = LiveProcessDataTarget::new();
    assert_eq!(t.query_interface(IID_IXCLRDataProcess), (E_NOINTERFACE, false));
    assert_eq!(t.ref_count, 1);
    assert_eq!(t.query_interface(0), (E_NOINTERFACE, false));
    assert_eq!(t.ref_count, 1);
}

#[test]
fn partial_read_reports_success_with_actual_count() {
    let t = LiveProcessDataTarget::new();
    // The OS call succeeded but moved only 3 of the 8 requested bytes:
    // still success, and the count reported is 3, not 8.
    assert_eq!(t.read_virtual_result(true, 3), (S_OK, 3));
    assert_eq!(t.read_virtual_result(true, 0), (S_OK, 0));
    assert_eq!(t.read_virtual_result(false, 0).0, E_FAIL);
}

#[test]
fn partial_write_reports_success_with_actual_count() {
    let t = LiveProcessDataTarget::new();
    assert_eq!(t.write_virtual_result(true, 5), (S_OK, 5));
    assert_eq!(t.write_virtual_result(false, 2), (E_FAIL, 2));
}

#[test]
fn unsupported_operations_say_not_implemented() {
    let t = LiveProcessDataTarget::new();
    assert_eq!(t.get_tls_value(1, 2), (E_NOTIMPL, 0));
    assert_eq!(t.set_tls_value(1, 2, 3), E_NOTIMPL);
    assert_eq!(t.get_current_thread_id(), (E_NOTIMPL, 0));
    assert_eq!(t.get_thread_context(1, 0, 16), E_NOTIMPL);
    assert_eq!(t.set_thread_context(1, 16), E_NOTIMPL);
    assert_eq!(t.request(7, 0, 0), E_NOTIMPL);
}

#[test]
fn image_base_end_to_end() {
    let mut t = LiveProcessDataTarget::new();
    let modules = listing(&[(b"clr.dll", 0x7000), (b"app.exe", 0x1000)]);
    assert_eq!(t.get_image_base(b"C:\\path\\clr.dll", &modules), (S_OK, 0x7000));
    assert_eq!(t.get_image_base(b"missing.dll", &modules), (E_FAIL, 0));
    assert_eq!(t.get_image_base(b"app.exe", &modules), (S_OK, 0x1000));
}

#[test]
fn image_base_population_is_lazy_and_one_shot() {
    let mut t = LiveProcessDataTarget::new();
    assert!(t.needs_module_population());
    let first = listing(&[(b"clr.dll", 0x7000)]);
    assert_eq!(t.get_image_base(b"clr.dll", &first), (S_OK, 0x7000));
    assert!(!t.needs_module_population());
    // A different listing on a later call cannot repopulate the cache.
    let second = listing(&[(b"clr.dll", 0xdead)]);
    assert_eq!(t.get_image_base(b"clr.dll", &second), (S_OK, 0x7000));
}

#[test]
fn populate_module_cache_is_idempotent() {
    let mut t = LiveProcessDataTarget::new();
    t.populate_module_cache(&listing(&[(b"clr.dll", 0x7000)]));
    t.populate_module_cache(&listing(&[(b"clr.dll", 0x9999), (b"x.dll", 1)]));
    assert_eq!(t.module_cache.entries.len(), 1);
    assert_eq!(t.get_image_base(b"clr.dll", &Vec::new()), (S_OK, 0x7000));
}
