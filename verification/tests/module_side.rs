use relib::ffi_types::{RawSlice, Str};
use relib::module_alloc::Allocator;
use relib::module_helpers::{assert_allocator_is_still_accessible, unrecoverable, ModuleExportsImpl};
use relib::shared::{AllocatorPtr, StableLayout};

#[test]
fn allocator_access_while_unloading() {
    assert!(assert_allocator_is_still_accessible(false, false).is_ok());
    assert!(assert_allocator_is_still_accessible(false, true).is_ok());
    assert!(assert_allocator_is_still_accessible(true, true).is_ok());
    let message = assert_allocator_is_still_accessible(true, false).unwrap_err();
    assert!(message.starts_with("module allocator was invoked while module was in the process of unloading"));
}

#[test]
fn strings_cross_the_boundary_unchanged() {
    let s = Str::new("héllo");
    assert_eq!(s.into_str(), "héllo");
    assert_eq!(Str::from_bytes(vec![104, 105]).into_str(), "hi");
    assert_eq!(unrecoverable("bad").into_str(), "bad");
    assert_eq!(Str::new("ok").as_bytes(), b"ok");
}

#[test]
fn slices_cross_the_boundary_unchanged() {
    assert_eq!(RawSlice::from_slice(&[1u32, 2, 3]).into_slice(), vec![1, 2, 3]);
}

#[test]
fn cached_allocs_are_taken_before_exit() {
    let mut allocator = Allocator::new();
    ModuleExportsImpl::init(&mut allocator);
    assert!(!allocator.save_alloc_in_cache(AllocatorPtr(1), StableLayout { size: 1, align: 1 }));
    ModuleExportsImpl::take_cached_allocs_before_exit(&mut allocator);
    assert_eq!(allocator.transport().len(), 1);
    ModuleExportsImpl::take_cached_allocs_before_exit(&mut allocator);
    assert_eq!(allocator.transport().len(), 1);
}
