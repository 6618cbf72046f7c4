use relib::codegen::CodegenError;
use relib::host_codegen::generate;

const EXPORTS_TEXT: &str = "use dylib_reload_shared::{ModuleId, SliceAllocation};

pub trait ___Internal___Exports___ {
    unsafe fn init(host_owner_thread: i64, module: ModuleId);
    unsafe fn exit(allocs: SliceAllocation);
    fn unloaded() -> bool;
    fn request_cached_allocs();
    unsafe fn run_thread_local_dtors();
}
";

const IMPORTS_TEXT: &str = "use stabby::str::Str;
use dylib_reload_shared::{ModuleId, SliceAllocatorOp, StableLayout};

pub trait ___Internal___Imports___ {
    fn on_alloc(module: ModuleId, ptr: *mut u8, layout: StableLayout);
    fn on_dealloc(module: ModuleId, ptr: *mut u8, layout: StableLayout);
    fn on_cached_allocs(module: ModuleId, ops: SliceAllocatorOp);
    fn unrecoverable(message: Str) -> !;
}
";

const EXPECTED_EXPORTS: &str = r####"// This file is generated, DO NOT edit manually
// ---------------------------------------------

use dylib_reload_shared::{ModuleId, SliceAllocation};
pub struct ModuleExports {
    init: unsafe extern "C" fn(host_owner_thread: i64, module: ModuleId),
    exit: unsafe extern "C" fn(allocs: SliceAllocation),
    unloaded: extern "C" fn() -> bool,
    request_cached_allocs: extern "C" fn(),
    run_thread_local_dtors: unsafe extern "C" fn(),
}
impl ModuleExports {
    pub unsafe fn new(library: &libloading::Library) -> Self {
        Self {
            init: *library
                .get(concat!("_____Internal___Exports____init", "\0").as_bytes())
                .expect(
                    "Failed to get \"init\" fn symbol from module (mangled name: \"_____Internal___Exports____init\")",
                ),
            exit: *library
                .get(concat!("_____Internal___Exports____exit", "\0").as_bytes())
                .expect(
                    "Failed to get \"exit\" fn symbol from module (mangled name: \"_____Internal___Exports____exit\")",
                ),
            unloaded: *library
                .get(concat!("_____Internal___Exports____unloaded", "\0").as_bytes())
                .expect(
                    "Failed to get \"unloaded\" fn symbol from module (mangled name: \"_____Internal___Exports____unloaded\")",
                ),
            request_cached_allocs: *library
                .get(
                    concat!("_____Internal___Exports____request_cached_allocs", "\0")
                        .as_bytes(),
                )
                .expect(
                    "Failed to get \"request_cached_allocs\" fn symbol from module (mangled name: \"_____Internal___Exports____request_cached_allocs\")",
                ),
            run_thread_local_dtors: *library
                .get(
                    concat!("_____Internal___Exports____run_thread_local_dtors", "\0")
                        .as_bytes(),
                )
                .expect(
                    "Failed to get \"run_thread_local_dtors\" fn symbol from module (mangled name: \"_____Internal___Exports____run_thread_local_dtors\")",
                ),
        }
    }
    pub unsafe fn init(&self, host_owner_thread: i64, module: ModuleId) {
        (self.init)(host_owner_thread, module)
    }
    pub unsafe fn exit(&self, allocs: SliceAllocation) {
        (self.exit)(allocs)
    }
    pub fn unloaded(&self) -> bool {
        (self.unloaded)()
    }
    pub fn request_cached_allocs(&self) {
        (self.request_cached_allocs)()
    }
    pub unsafe fn run_thread_local_dtors(&self) {
        (self.run_thread_local_dtors)()
    }
}
"####;

const EXPECTED_IMPORTS: &str = r####"// This file is generated, DO NOT edit manually
// ---------------------------------------------

use stabby::str::Str;
use dylib_reload_shared::{ModuleId, SliceAllocatorOp, StableLayout};
use dylib_reload_shared::imports::___Internal___Imports___ as Imports;
/// Struct for implementing your `Imports` trait
pub struct ModuleImportsImpl;
pub fn init_imports(library: &libloading::Library) {
    unsafe {
        let ptr: *mut extern "C" fn(
            module: ModuleId,
            ptr: *mut u8,
            layout: StableLayout,
        ) = *library
            .get(concat!("_____Internal___Imports____on_alloc", "\0").as_bytes())
            .expect(
                "Failed to get \"_____Internal___Imports____on_alloc\" symbol of static function pointer from module",
            );
        *ptr = impl_;
        extern "C" fn impl_(module: ModuleId, ptr: *mut u8, layout: StableLayout) {
            <ModuleImportsImpl as Imports>::on_alloc(module, ptr, layout)
        }
    }
    unsafe {
        let ptr: *mut extern "C" fn(
            module: ModuleId,
            ptr: *mut u8,
            layout: StableLayout,
        ) = *library
            .get(concat!("_____Internal___Imports____on_dealloc", "\0").as_bytes())
            .expect(
                "Failed to get \"_____Internal___Imports____on_dealloc\" symbol of static function pointer from module",
            );
        *ptr = impl_;
        extern "C" fn impl_(module: ModuleId, ptr: *mut u8, layout: StableLayout) {
            <ModuleImportsImpl as Imports>::on_dealloc(module, ptr, layout)
        }
    }
    unsafe {
        let ptr: *mut extern "C" fn(module: ModuleId, ops: SliceAllocatorOp) = *library
            .get(concat!("_____Internal___Imports____on_cached_allocs", "\0").as_bytes())
            .expect(
                "Failed to get \"_____Internal___Imports____on_cached_allocs\" symbol of static function pointer from module",
            );
        *ptr = impl_;
        extern "C" fn impl_(module: ModuleId, ops: SliceAllocatorOp) {
            <ModuleImportsImpl as Imports>::on_cached_allocs(module, ops)
        }
    }
    unsafe {
        let ptr: *mut extern "C" fn(message: Str) -> ! = *library
            .get(concat!("_____Internal___Imports____unrecoverable", "\0").as_bytes())
            .expect(
                "Failed to get \"_____Internal___Imports____unrecoverable\" symbol of static function pointer from module",
            );
        *ptr = impl_;
        extern "C" fn impl_(message: Str) -> ! {
            <ModuleImportsImpl as Imports>::unrecoverable(message)
        }
    }
}
"####;

#[test]
fn host_code_matches_expected_layout() {
    let (exports, imports) = generate(
        EXPORTS_TEXT,
        "dylib_reload_shared::exports::___Internal___Exports___",
        IMPORTS_TEXT,
        "dylib_reload_shared::imports::___Internal___Imports___",
    );
    let exports = exports.unwrap_or_else(|e| panic!("{:?}", e));
    let imports = imports.unwrap_or_else(|e| panic!("{:?}", e));
    assert_eq!(exports, EXPECTED_EXPORTS);
    assert_eq!(imports, EXPECTED_IMPORTS);
}

#[test]
fn host_generate_refuses_wrong_trait_name() {
    let r = generate(
        EXPORTS_TEXT,
        "dylib_reload_shared::exports::Other",
        IMPORTS_TEXT,
        "dylib_reload_shared::imports::___Internal___Imports___",
    );
    assert_eq!(r.0.err(), Some(CodegenError::WrongTraitName));
}

#[test]
fn host_generate_refuses_path_without_crate() {
    let r = generate(
        EXPORTS_TEXT,
        "___Internal___Exports___",
        IMPORTS_TEXT,
        "dylib_reload_shared::imports::___Internal___Imports___",
    );
    assert_eq!(r.0.err(), Some(CodegenError::NoCrateInTraitPath));
}

#[test]
fn host_exports_survive_a_refused_imports_file() {
    let (exports, imports) = generate(
        EXPORTS_TEXT,
        "dylib_reload_shared::exports::___Internal___Exports___",
        IMPORTS_TEXT,
        "bad path::___Internal___Imports___",
    );
    assert_eq!(exports.unwrap(), EXPECTED_EXPORTS);
    assert_eq!(imports.err(), Some(CodegenError::InvalidTraitPath));
}

#[test]
fn host_looks_up_the_symbols_the_module_exports() {
    let (exports, imports) = generate(
        EXPORTS_TEXT,
        "dylib_reload_shared::exports::___Internal___Exports___",
        IMPORTS_TEXT,
        "dylib_reload_shared::imports::___Internal___Imports___",
    );
    let (module_exports, module_imports) = relib::module_codegen::generate(
        EXPORTS_TEXT,
        "dylib_reload_shared::exports::___Internal___Exports___",
        IMPORTS_TEXT,
        "dylib_reload_shared::imports::___Internal___Imports___",
    );
    let (exports, imports) = (exports.unwrap(), imports.unwrap());
    let (module_exports, module_imports) = (module_exports.unwrap(), module_imports.unwrap());
    assert!(exports.contains("concat!(\"_____Internal___Exports____exit\""));
    assert!(module_exports.contains("extern \"C\" fn _____Internal___Exports____exit("));
    assert!(imports.contains("concat!(\"_____Internal___Imports____on_alloc\""));
    assert!(module_imports.contains("static mut _____Internal___Imports____on_alloc:"));
}

#[test]
fn host_generate_refuses_text_that_is_not_rust() {
    let r = generate(
        "pub trait ___Internal___Exports___ {",
        "dylib_reload_shared::exports::___Internal___Exports___",
        IMPORTS_TEXT,
        "dylib_reload_shared::imports::___Internal___Imports___",
    );
    assert_eq!(r.0.err(), Some(CodegenError::Unparsable));
    // the trait path is checked before the text is read
    let r = generate("not rust", "___Internal___Exports___", IMPORTS_TEXT, "x::y");
    assert_eq!(r.0.err(), Some(CodegenError::NoCrateInTraitPath));
}

const SHARED_EXPORTS_TEXT: &str = r####"use crate::{ModuleId, SliceAllocation};

#[allow(non_camel_case_types, clippy::missing_safety_doc)]
pub trait ___Internal___Exports___ {
  unsafe fn init(host_owner_thread: usize, module: ModuleId);
  unsafe fn exit(allocs: SliceAllocation);
  fn take_cached_allocs_before_exit();
  fn lock_module_allocator();

  // currently linux-only
  fn spawned_threads_count() -> u64;
  unsafe fn run_thread_local_dtors();
}
"####;

#[test]
fn host_generates_from_the_shared_exports_trait() {
    let (exports, imports) = generate(
        SHARED_EXPORTS_TEXT,
        "dylib_reload_shared::exports::___Internal___Exports___",
        IMPORTS_TEXT,
        "dylib_reload_shared::imports::___Internal___Imports___",
    );
    let exports = exports.unwrap();
    assert!(imports.is_ok());
    assert!(exports.starts_with(
        "// This file is generated, DO NOT edit manually\n// ---------------------------------------------\n\nuse dylib_reload_shared::{ModuleId, SliceAllocation};\npub struct ModuleExports {\n    init: unsafe extern \"C\" fn(host_owner_thread: usize, module: ModuleId),\n"
    ));
    assert!(exports.contains("    spawned_threads_count: extern \"C\" fn() -> u64,\n"));
    let flat: String = exports.chars().filter(|c| !c.is_whitespace()).collect();
    assert!(flat.contains("concat!(\"_____Internal___Exports____take_cached_allocs_before_exit\",\"\\0\")"));
    assert!(exports.contains("    pub unsafe fn run_thread_local_dtors(&self) {\n        (self.run_thread_local_dtors)()\n    }\n"));
}
