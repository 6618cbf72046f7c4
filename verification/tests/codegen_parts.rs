use relib::plain_syntax::is_plain_piece;
use relib::codegen::{
    crate_name_of_path, extract_trait_name_from_path, for_each_trait_item, is_rust_path,
    parse_file_text, parse_trait_file, parse_trait_file_text, patch_item_use_if_needed, trait_file_error, trait_item_error,
    use_item_error, CodegenError, FileItem, FnInput, TraitFnSig, TraitItemModel, TraitModel,
    UseItemModel, UseTreeModel,
};
use relib::export_macro::{define_module_export, define_module_export_text, ExportedFn};

fn use_item(first: &str, rest: &str) -> UseItemModel {
    UseItemModel {
        tree: UseTreeModel::Path { first: first.to_string(), rest: rest.to_string() },
        text: format!("use {}::{};", first, rest),
    }
}

fn a_trait(name: &str) -> FileItem {
    FileItem::Trait(TraitModel { ident: name.to_string(), items: vec![] })
}

#[test]
fn trait_name_is_last_path_piece() {
    assert_eq!(extract_trait_name_from_path("krate::exports::Exports"), "Exports");
    assert_eq!(extract_trait_name_from_path("Exports"), "Exports");
    assert_eq!(extract_trait_name_from_path("a::"), "");
    // pieces are split left to right, as `str::split` does
    assert_eq!(extract_trait_name_from_path("a:::b"), ":b");
}

#[test]
fn crate_name_is_first_path_piece() {
    assert_eq!(crate_name_of_path("krate::exports::Exports"), Some("krate"));
    assert_eq!(crate_name_of_path("Exports"), None);
}

#[test]
fn use_items_are_patched() {
    assert_eq!(patch_item_use_if_needed(&use_item("crate", "types::Id"), "shared"), "use shared::types::Id;");
    assert_eq!(patch_item_use_if_needed(&use_item("std", "fmt::Debug"), "shared"), "use std::fmt::Debug;");
    assert_eq!(use_item_error(&use_item("std", "fmt::Debug")), None);
    assert_eq!(use_item_error(&use_item("super", "Id")), Some(CodegenError::SuperImport));
    let glob = UseItemModel { tree: UseTreeModel::Other, text: "use *;".to_string() };
    assert_eq!(use_item_error(&glob), Some(CodegenError::UnexpectedUseSyntax));
}

#[test]
fn trait_file_checks() {
    let items = vec![FileItem::Use(use_item("crate", "Id")), a_trait("Exports")];
    assert_eq!(trait_file_error("Exports", "shared::Exports", &items), None);
    assert_eq!(parse_trait_file("Exports", "shared::Exports", &items), (1, "use shared::Id;".to_string()));
    assert_eq!(trait_file_error("Other", "shared::Other", &items), Some(CodegenError::WrongTraitName));
    assert_eq!(trait_file_error("Exports", "Exports", &items), Some(CodegenError::NoCrateInTraitPath));
    let with_other = vec![a_trait("Exports"), FileItem::Other];
    assert_eq!(trait_file_error("Exports", "shared::Exports", &with_other), Some(CodegenError::OnlyUseAndTraitItems));
    let no_trait = vec![FileItem::Use(use_item("std", "fmt"))];
    assert_eq!(trait_file_error("Exports", "shared::Exports", &no_trait), Some(CodegenError::ExpectedTrait));
    // a refused use item is reported before the other checks
    let bad_use = vec![FileItem::Other, FileItem::Use(use_item("super", "Id"))];
    assert_eq!(trait_file_error("Exports", "shared::Exports", &bad_use), Some(CodegenError::SuperImport));
    // the first trait is the one used
    let two = vec![a_trait("Exports"), a_trait("Other")];
    assert_eq!(parse_trait_file("Exports", "shared::Exports", &two), (0, String::new()));
}

#[test]
fn trait_fn_parts() {
    let sig = TraitFnSig {
        ident: "on_alloc".to_string(),
        is_unsafe: true,
        has_receiver: false,
        inputs: vec![
            FnInput { attrs: String::new(), pattern: "module".to_string(), ty: "ModuleId".to_string() },
            FnInput { attrs: String::new(), pattern: "ptr".to_string(), ty: "*mut u8".to_string() },
        ],
        output: Some("bool".to_string()),
    };
    let item = TraitItemModel::Fn(sig);
    assert_eq!(trait_item_error(&item), None);
    let f = for_each_trait_item("Imports", &item);
    assert_eq!(f.mangled_name, "__Imports_on_alloc");
    assert_eq!(f.inputs, "module: ModuleId, ptr: *mut u8, ");
    assert_eq!(f.inputs_without_types, "module, ptr, ");
    assert_eq!(f.placeholder_inputs, "_: ModuleId, _: *mut u8, ");
    assert_eq!(f.output, "-> bool");
    assert_eq!(f.return_type, "bool");
    assert!(f.is_unsafe);
    assert_eq!(trait_item_error(&TraitItemModel::Other), Some(CodegenError::NotAFunction));
    let with_self = TraitFnSig { ident: "m".to_string(), is_unsafe: false, has_receiver: true, inputs: vec![], output: None };
    assert_eq!(trait_item_error(&TraitItemModel::Fn(with_self)), Some(CodegenError::HasReceiver));
}

#[test]
fn rust_paths() {
    assert!(is_rust_path("krate::exports::Exports"));
    assert!(!is_rust_path("bad path::Exports"));
}

#[test]
fn exported_function_catches_panics() {
    let f = ExportedFn {
        attrs: vec!["#[inline]".to_string()],
        ident: "main".to_string(),
        has_receiver: false,
        inputs: vec![FnInput { attrs: String::new(), pattern: "x".to_string(), ty: "u8".to_string() }],
        output: Some("u8".to_string()),
        block: "{ x }".to_string(),
    };
    let code = define_module_export(&f);
    let flat: String = code.chars().filter(|c| !c.is_whitespace()).collect();
    assert!(flat.starts_with("#[unsafe(export_name=\"__main\")]#[inline]extern\"C\"fnmain(____return_value____:*mutstd::mem::MaybeUninit<u8>,x:u8,)->bool{fn___do_call___(x:u8,)->u8{x}"));
    assert!(flat.contains("std::panic::catch_unwind(move||{___do_call___(x,)});"));
    assert!(syn::parse_file(&code).is_ok());
}

#[test]
fn distinct_functions_get_distinct_symbols() {
    let sig = |name: &str| TraitItemModel::Fn(TraitFnSig {
        ident: name.to_string(),
        is_unsafe: false,
        has_receiver: false,
        inputs: vec![],
        output: None,
    });
    let a = for_each_trait_item("Exports", &sig("a"));
    let b = for_each_trait_item("Exports", &sig("b"));
    assert_eq!(a.mangled_name, "__Exports_a");
    assert_eq!(b.mangled_name, "__Exports_b");
    assert_ne!(a.mangled_name, b.mangled_name);
}

#[test]
fn trait_file_text_is_read() {
    let text = "use crate::Id;\nuse std::fmt::Debug;\npub trait Exports { unsafe fn f(a: u8, b: &str) -> u8; fn g(&self); }\ntrait Later {}\n";
    let (t, items, uses) = parse_trait_file_text("Exports", "shared::Exports", text).unwrap();
    assert_eq!(t, 2);
    assert_eq!(items.len(), 4);
    assert_eq!(uses, "use shared::Id;use std :: fmt :: Debug ;");
    match &items[2] {
        FileItem::Trait(tr) => {
            assert_eq!(tr.ident, "Exports");
            match &tr.items[0] {
                TraitItemModel::Fn(f) => {
                    assert_eq!(f.ident, "f");
                    assert!(f.is_unsafe && !f.has_receiver);
                    assert_eq!(f.inputs.len(), 2);
                    assert_eq!(f.inputs[1].pattern, "b");
                    assert_eq!(f.inputs[1].ty, "& str");
                    assert_eq!(f.output.as_deref(), Some("u8"));
                }
                TraitItemModel::Other => panic!("expected a function"),
            }
            match &tr.items[1] {
                TraitItemModel::Fn(g) => assert!(g.has_receiver && g.output.is_none()),
                TraitItemModel::Other => panic!("expected a function"),
            }
        }
        _ => panic!("expected the trait"),
    }
    assert_eq!(parse_trait_file_text("Other", "shared::Other", text).err(), Some(CodegenError::WrongTraitName));
    assert_eq!(parse_trait_file_text("Exports", "Exports", "not rust").err(), Some(CodegenError::NoCrateInTraitPath));
    assert_eq!(parse_trait_file_text("Exports", "shared::Exports", "trait {").err(), Some(CodegenError::Unparsable));
    assert_eq!(
        parse_trait_file_text("Exports", "shared::Exports", "use super::X;\ntrait Exports {}").err(),
        Some(CodegenError::SuperImport)
    );
    assert_eq!(
        parse_trait_file_text("Exports", "shared::Exports", "use {a, b};\ntrait Exports {}").err(),
        Some(CodegenError::UnexpectedUseSyntax)
    );
    assert_eq!(
        parse_trait_file_text("Exports", "shared::Exports", "const C: u8 = 1;\ntrait Exports {}").err(),
        Some(CodegenError::OnlyUseAndTraitItems)
    );
    assert_eq!(parse_trait_file_text("Exports", "shared::Exports", "use std::fmt;").err(), Some(CodegenError::ExpectedTrait));
    assert!(matches!(parse_file_text("fn main() {}").unwrap()[0], FileItem::Other));
}

#[test]
fn exported_function_text_is_read() {
    let code = define_module_export_text("#[inline] fn main(x: u8) -> u8 { x }").unwrap();
    let flat: String = code.chars().filter(|c| !c.is_whitespace()).collect();
    assert!(flat.starts_with("#[unsafe(export_name=\"__main\")]#[inline]extern\"C\"fnmain(____return_value____:*mutstd::mem::MaybeUninit<u8>,x:u8,)->bool{fn___do_call___(x:u8,)->u8{x}"));
    assert!(syn::parse_file(&code).is_ok());
    assert_eq!(define_module_export_text("fn m(&self) {}").err(), Some(CodegenError::HasReceiver));
    assert_eq!(define_module_export_text("struct S;").err(), Some(CodegenError::Unparsable));
}

#[test]
fn plain_pieces() {
    assert!(is_plain_piece("*mut u8"));
    assert!(is_plain_piece("* const [u8 ; 4]"));
    assert!(is_plain_piece("Option < fn (u8) -> ! >"));
    assert!(is_plain_piece("! "));
    assert!(!is_plain_piece("u8) -> u8; fn g(z: u8"));
    assert!(!is_plain_piece("u8; fn g()"));
    assert!(!is_plain_piece("dyn * Tr"));
    assert!(!is_plain_piece("box x"));
    assert!(!is_plain_piece("impl const Tr"));
    assert!(!is_plain_piece("m ! (x)"));
    assert!(is_plain_piece("[u8; { 1 }]"));
    assert!(!is_plain_piece("[u8; { fn f(); 1 }]"));
    assert!(!is_plain_piece("{ 1 }"));
    assert!(is_plain_piece("extern \"C\" fn()"));
    assert!(!is_plain_piece("extern \"C\\\" fn()"));
    assert!(is_plain_piece("Box<dyn Fn()>"));
    assert!(!is_plain_piece("fn(mut self)"));
    assert!(!is_plain_piece("builtin # x()"));
    assert!(is_plain_piece("# [cfg (x)]"));
    assert!(!is_plain_piece("X<'['> ; fn g() ; X<']'>"));
    assert!(is_plain_piece("boxed"));
    assert!(is_plain_piece("Vec<Self>"));
    assert!(is_plain_piece("& 'static str"));
}
