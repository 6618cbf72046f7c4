use relib::errors::LoadError;
use relib::exports_types::ModuleValue;
use relib::host_helpers::{is_library_loaded, str_contains, ModuleIdCounter};
use relib::host_load::{check_compilation_info, ModuleImportsImpl};
use relib::host_allocs::ModuleAllocs;
use relib::shared::{AllocatorPtr, StableLayout};

#[test]
fn module_ids_start_at_one_and_increase() {
    let mut ids = ModuleIdCounter::new();
    assert_eq!(ids.next_module_id(), 1);
    assert_eq!(ids.next_module_id(), 2);
    assert_eq!(ids.next_module_id(), 3);
    assert!(!ids.is_exhausted());
}

#[test]
fn library_mapped_check() {
    let lines = vec![
        Some("7f00-7f10 r-xp 0 08:01 1 /usr/lib/libc.so.6".to_string()),
        None,
        Some("7f20-7f30 r-xp 0 08:01 2 /tmp/target/debug/libtest_module.so".to_string()),
    ];
    assert!(is_library_loaded(&lines, "/tmp/target/debug/libtest_module.so"));
    assert!(!is_library_loaded(&lines, "/tmp/target/release/libtest_module.so"));
    assert!(!is_library_loaded(&[], "x"));
    assert!(str_contains("abc", ""));
    assert!(str_contains("héllo", "éll"));
    assert!(!str_contains("ab", "abc"));
}

#[test]
fn compilation_info_must_match() {
    assert!(check_compilation_info("rustc 1.90".to_string(), "rustc 1.90").is_ok());
    match check_compilation_info("rustc 1.89".to_string(), "rustc 1.90") {
        Err(LoadError::ModuleCompilationMismatch(module, host)) => {
            assert_eq!(module, "rustc 1.89");
            assert_eq!(host, "rustc 1.90");
        }
        _ => panic!("expected a mismatch"),
    }
}

#[test]
fn imports_forward_to_the_record() {
    let mut allocs = ModuleAllocs::new();
    allocs.add_module(5);
    ModuleImportsImpl::on_alloc(&mut allocs, 5, AllocatorPtr(8), StableLayout { size: 4, align: 4 });
    assert!(allocs.tracks(5, AllocatorPtr(8)));
    ModuleImportsImpl::on_dealloc(&mut allocs, 5, AllocatorPtr(8), StableLayout { size: 4, align: 4 });
    assert!(!allocs.tracks(5, AllocatorPtr(8)));
    assert_eq!(
        ModuleImportsImpl::unrecoverable("oops"),
        "something unrecoverable happened: oops (from module)"
    );
}

#[test]
fn module_value_holds_its_value() {
    let v: ModuleValue<'_, Vec<u8>> = ModuleValue::<'static, Vec<u8>>::new(vec![1, 2, 3]);
    assert_eq!(v.get(), &vec![1, 2, 3]);
}
