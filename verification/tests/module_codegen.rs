use relib::codegen::{
    CodegenError, FileItem, FnInput, TraitFnSig, TraitItemModel, TraitModel, UseItemModel,
    UseTreeModel,
};
use relib::interface_files::{generate_file, FileKind};
use relib::module_codegen::{generate, generate_pub};

const EXPORTS_TEXT: &str = "use dylib_reload_shared::{ModuleId, SliceAllocation};

pub trait ___Internal___Exports___ {
    unsafe fn init(host_owner_thread: i64, module: ModuleId);
    unsafe fn exit(allocs: SliceAllocation);
    fn unloaded() -> bool;
    fn request_cached_allocs();
    unsafe fn run_thread_local_dtors();
}
";

const IMPORTS_TEXT: &str = "use stabby::str::Str;
use dylib_reload_shared::{ModuleId, SliceAllocatorOp, StableLayout};

pub trait ___Internal___Imports___ {
    fn on_alloc(module: ModuleId, ptr: *mut u8, layout: StableLayout);
    fn on_dealloc(module: ModuleId, ptr: *mut u8, layout: StableLayout);
    fn on_cached_allocs(module: ModuleId, ops: SliceAllocatorOp);
    fn unrecoverable(message: Str) -> !;
}
";

const EXPECTED_EXPORTS: &str = r####"// This file is generated, DO NOT edit manually
// ---------------------------------------------

use dylib_reload_shared::{ModuleId, SliceAllocation};
use dylib_reload_shared::exports::___Internal___Exports___ as Exports;
/// Struct for implementing your `Exports` trait
pub struct ModuleExportsImpl;
#[unsafe(no_mangle)]
pub unsafe extern "C" fn _____Internal___Exports____init(
    host_owner_thread: i64,
    module: ModuleId,
) {
    <ModuleExportsImpl as Exports>::init(host_owner_thread, module)
}
#[unsafe(no_mangle)]
pub unsafe extern "C" fn _____Internal___Exports____exit(allocs: SliceAllocation) {
    <ModuleExportsImpl as Exports>::exit(allocs)
}
#[unsafe(no_mangle)]
pub extern "C" fn _____Internal___Exports____unloaded() -> bool {
    <ModuleExportsImpl as Exports>::unloaded()
}
#[unsafe(no_mangle)]
pub extern "C" fn _____Internal___Exports____request_cached_allocs() {
    <ModuleExportsImpl as Exports>::request_cached_allocs()
}
#[unsafe(no_mangle)]
pub unsafe extern "C" fn _____Internal___Exports____run_thread_local_dtors() {
    <ModuleExportsImpl as Exports>::run_thread_local_dtors()
}
"####;

fn without_spaces(s: &str) -> String {
    s.chars().filter(|c| !c.is_whitespace()).collect()
}

const EXPORTS_PATH: &str = "dylib_reload_shared::exports::___Internal___Exports___";
const IMPORTS_PATH: &str = "dylib_reload_shared::imports::___Internal___Imports___";

#[test]
fn module_code_matches_expected_layout() {
    let (exports, imports) = generate(EXPORTS_TEXT, EXPORTS_PATH, IMPORTS_TEXT, IMPORTS_PATH);
    let (exports, imports) = (exports.unwrap(), imports.unwrap());
    assert_eq!(exports, EXPECTED_EXPORTS);
    let flat = without_spaces(&imports);
    assert!(flat.contains(&without_spaces(
        "pub fn on_cached_allocs(module: ModuleId, ops: SliceAllocatorOp) {
            #[allow(non_upper_case_globals)]
            #[unsafe(no_mangle)]
            static mut _____Internal___Imports____on_cached_allocs: extern \"C\" fn(module: ModuleId, ops: SliceAllocatorOp,) = placeholder;
            extern \"C\" fn placeholder(_: ModuleId, _: SliceAllocatorOp) { unreachable!(); }
            unsafe { _____Internal___Imports____on_cached_allocs(module, ops) }
        }"
    )));
    assert!(flat.ends_with(&without_spaces(
        "pub fn unrecoverable(message: Str) -> ! {
            #[allow(non_upper_case_globals)]
            #[unsafe(no_mangle)]
            static mut _____Internal___Imports____unrecoverable: extern \"C\" fn(message: Str,) -> ! = placeholder;
            extern \"C\" fn placeholder(_: Str) -> ! { unreachable!(); }
            unsafe { _____Internal___Imports____unrecoverable(message) }
        }"
    )));
    assert!(imports.starts_with("// This file is generated, DO NOT edit manually\n// ---------------------------------------------\n\nuse stabby::str::Str;\nuse dylib_reload_shared::{ModuleId, SliceAllocatorOp, StableLayout};\npub fn on_alloc("));
}

#[test]
fn public_exports_catch_panics() {
    let exports = generate_pub(EXPORTS_TEXT, EXPORTS_PATH, IMPORTS_TEXT, IMPORTS_PATH).0.unwrap();
    let flat = without_spaces(&exports);
    assert!(flat.contains("pubextern\"C\"fn_____Internal___Exports____unloaded(____return_value____:*mutstd::mem::MaybeUninit<bool>,)->bool{"));
    assert!(flat.contains("letresult=std::panic::catch_unwind(move||{<ModuleExportsImplasExports>::unloaded()});"));
    assert!(flat.contains("pubunsafeextern\"C\"fn_____Internal___Exports____exit(____return_value____:*mutstd::mem::MaybeUninit<()>,allocs:SliceAllocation,)->bool{"));
    assert!(flat.contains("matchresult{Ok(value)=>{unsafe{(*____return_value____).write(value);}true}Err(_)=>false,}"));
}

#[test]
fn module_generate_refuses_super_import() {
    let file = format!("use super::Thing;\n{}", EXPORTS_TEXT);
    let r = generate(&file, EXPORTS_PATH, IMPORTS_TEXT, IMPORTS_PATH);
    assert_eq!(r.0.err(), Some(CodegenError::SuperImport));
}

#[test]
fn module_generate_refuses_receiver() {
    let file = EXPORTS_TEXT.replace("fn unloaded() -> bool;", "fn unloaded(&self) -> bool;");
    let r = generate(&file, EXPORTS_PATH, IMPORTS_TEXT, IMPORTS_PATH);
    assert_eq!(r.0.err(), Some(CodegenError::HasReceiver));
}

#[test]
fn module_generate_refuses_other_items() {
    let with_const = EXPORTS_TEXT.replace("fn request_cached_allocs();", "const C: u8;");
    let r = generate(&with_const, EXPORTS_PATH, IMPORTS_TEXT, IMPORTS_PATH);
    assert_eq!(r.0.err(), Some(CodegenError::NotAFunction));
    let with_fn = format!("{}fn f() {{}}\n", EXPORTS_TEXT);
    let r = generate(&with_fn, EXPORTS_PATH, IMPORTS_TEXT, IMPORTS_PATH);
    assert_eq!(r.0.err(), Some(CodegenError::OnlyUseAndTraitItems));
    let glob = format!("use *;\n{}", EXPORTS_TEXT);
    let r = generate(&glob, EXPORTS_PATH, IMPORTS_TEXT, IMPORTS_PATH);
    assert!(r.0.is_err());
}

#[test]
fn module_generate_refuses_a_trait_path_that_is_not_a_path() {
    let r = generate(EXPORTS_TEXT, "bad path::___Internal___Exports___", IMPORTS_TEXT, IMPORTS_PATH);
    assert_eq!(r.0.err(), Some(CodegenError::InvalidTraitPath));
}

#[test]
fn unparsable_pieces_are_refused() {
    let func = |ident: &str, ty: &str| TraitItemModel::Fn(TraitFnSig {
        ident: ident.to_string(),
        is_unsafe: false,
        has_receiver: false,
        inputs: vec![FnInput { attrs: String::new(), pattern: "x".to_string(), ty: ty.to_string() }],
        output: None,
    });
    let file = vec![
        FileItem::Use(UseItemModel {
            tree: UseTreeModel::Path { first: "std".to_string(), rest: "fmt".to_string() },
            text: "use std::fmt;".to_string(),
        }),
        FileItem::Trait(TraitModel {
            ident: "___Internal___Exports___".to_string(),
            items: vec![func("ok", "u8"), func("broken", "u8 u8")],
        }),
    ];
    let r = generate_file(FileKind::ModuleExports { catch_panics: false }, EXPORTS_PATH, &file);
    assert_eq!(r.err(), Some(CodegenError::Unformattable));
}

#[test]
fn module_generate_refuses_text_that_is_not_rust() {
    let r = generate(EXPORTS_TEXT, EXPORTS_PATH, "trait {", IMPORTS_PATH);
    assert!(r.0.is_ok());
    assert_eq!(r.1.err(), Some(CodegenError::Unparsable));
}

#[test]
fn module_generate_refuses_unsupported_syntax() {
    for ty in ["dyn * Tr", "m!(x)", "[u8; { fn f(); 1 }]", "[u8; { static S: u8; 1 }]"] {
        let file = EXPORTS_TEXT.replace("allocs: SliceAllocation", &format!("allocs: {}", ty));
        let r = generate(&file, EXPORTS_PATH, IMPORTS_TEXT, IMPORTS_PATH);
        assert_eq!(r.0.err(), Some(CodegenError::UnsupportedSyntax), "{}", ty);
    }
    for ty in ["Box<dyn Fn()>", "[u8; { 1 }]", "extern \"C\" fn(u8) -> u8", "*const [u8; 4]", "&'static str"] {
        let file = EXPORTS_TEXT.replace("allocs: SliceAllocation", &format!("allocs: {}", ty));
        let r = generate(&file, EXPORTS_PATH, IMPORTS_TEXT, IMPORTS_PATH);
        assert!(r.0.is_ok(), "{}", ty);
    }
}

#[test]
fn module_exports_keep_parameter_attributes() {
    let file = EXPORTS_TEXT.replace("allocs: SliceAllocation", "#[cfg(all())] allocs: SliceAllocation");
    let exports = generate(&file, EXPORTS_PATH, IMPORTS_TEXT, IMPORTS_PATH).0.unwrap();
    let flat = without_spaces(&exports);
    assert!(flat.contains("_____Internal___Exports____exit(#[cfg(all())]allocs:SliceAllocation"), "{}", exports);
    assert!(flat.contains("<ModuleExportsImplasExports>::exit(allocs)"));
}

#[test]
fn copied_use_items_must_be_their_path() {
    let file = vec![
        FileItem::Use(UseItemModel {
            tree: UseTreeModel::Path { first: "std".to_string(), rest: "fmt".to_string() },
            text: "use {::a, b};".to_string(),
        }),
        FileItem::Trait(TraitModel { ident: "___Internal___Exports___".to_string(), items: vec![] }),
    ];
    let r = generate_file(FileKind::HostExports, EXPORTS_PATH, &file);
    assert_eq!(r.err(), Some(CodegenError::UnsupportedSyntax));
    let ok = |text: &str| {
        let file = vec![
            FileItem::Use(UseItemModel {
                tree: UseTreeModel::Path { first: "std".to_string(), rest: "fmt".to_string() },
                text: text.to_string(),
            }),
            FileItem::Trait(TraitModel { ident: "___Internal___Exports___".to_string(), items: vec![] }),
        ];
        generate_file(FileKind::HostExports, EXPORTS_PATH, &file).is_ok()
    };
    assert!(ok("use std::fmt;"));
    assert!(ok("pub use std :: fmt ;"));
    let exports = generate(&format!("pub use std::fmt;\n{}", EXPORTS_TEXT), EXPORTS_PATH, IMPORTS_TEXT, IMPORTS_PATH).0.unwrap();
    assert!(exports.contains("pub use std::fmt;\n"));
}
