//! Rust source read with `syn`: the items of an interface file and a
//! function marked for export, each turned into the library's description
//! of it.
use vstd::prelude::*;
use quote::{ToTokens, TokenStreamExt};
use crate::codegen::{FileItem, FnInput, TraitFnSig, TraitItemModel, TraitModel, UseItemModel, UseTreeModel};
use crate::export_macro::ExportedFn;

verus! {

#[verifier::external_type_specification]
#[verifier::external_body]
pub struct ExSynItem(syn::Item);

#[verifier::external_type_specification]
#[verifier::external_body]
pub struct ExSynUseTree(syn::UseTree);

#[verifier::external_type_specification]
#[verifier::external_body]
pub struct ExSynTraitItem(syn::TraitItem);

#[verifier::external_type_specification]
#[verifier::external_body]
pub struct ExSynFnArg(syn::FnArg);

#[verifier::external_type_specification]
#[verifier::external_body]
pub struct ExSynReturnType(syn::ReturnType);

/// A parameter as `syn` prints its attributes, its pattern and its type;
/// a receiver is printed as written (`&self`) with the type `syn` gives
/// it, and its attributes are left out.
#[verifier::external_body]
fn fn_input_of(arg: &syn::FnArg) -> FnInput {
    match arg {
        syn::FnArg::Receiver(r) => FnInput { attrs: String::new(), pattern: r.to_token_stream().to_string(), ty: r.ty.to_token_stream().to_string() },
        syn::FnArg::Typed(t) => {
            let mut attrs = proc_macro2::TokenStream::new();
            attrs.append_all(&t.attrs);
            FnInput { attrs: attrs.to_string(), pattern: t.pat.to_token_stream().to_string(), ty: t.ty.to_token_stream().to_string() }
        },
    }
}

/// The declared return type as `syn` prints it; `None` when there is none.
#[verifier::external_body]
fn output_of(output: &syn::ReturnType) -> Option<String> {
    match output {
        syn::ReturnType::Default => None,
        syn::ReturnType::Type(_, ty) => Some(ty.to_token_stream().to_string()),
    }
}

/// An item of a trait: a function's signature read through `syn`'s
/// accessors, or `Other`.
#[verifier::external_body]
fn trait_item_of(item: &syn::TraitItem) -> TraitItemModel {
    match item {
        syn::TraitItem::Fn(f) => TraitItemModel::Fn(TraitFnSig {
            ident: f.sig.ident.to_string(),
            is_unsafe: f.sig.unsafety.is_some(),
            has_receiver: f.sig.receiver().is_some(),
            inputs: f.sig.inputs.iter().map(fn_input_of).collect(),
            output: output_of(&f.sig.output),
        }),
        _ => TraitItemModel::Other,
    }
}

/// The tree of a `use` item: its first segment and the rest as `syn`
/// prints it when it is a path, else `Other`.
#[verifier::external_body]
fn use_tree_of(tree: &syn::UseTree) -> UseTreeModel {
    match tree {
        syn::UseTree::Path(p) => UseTreeModel::Path { first: p.ident.to_string(), rest: p.tree.to_token_stream().to_string() },
        _ => UseTreeModel::Other,
    }
}

/// A top-level item of a file: a `use` item with its text as `syn` prints
/// it, a trait with its name and items, or `Other`.
#[verifier::external_body]
fn file_item_of(item: &syn::Item) -> FileItem {
    match item {
        syn::Item::Use(u) => FileItem::Use(UseItemModel { tree: use_tree_of(&u.tree), text: u.to_token_stream().to_string() }),
        syn::Item::Trait(t) => FileItem::Trait(TraitModel { ident: t.ident.to_string(), items: t.items.iter().map(trait_item_of).collect() }),
        _ => FileItem::Other,
    }
}

/// The items of a Rust source file as `syn::parse_file` reads them, each
/// described as above; `None` when the text does not parse.
pub uninterp spec fn parsed_file_items(text: Seq<char>) -> Option<Seq<FileItem>>;

/// Calls `syn::parse_file` on the text and describes each item of the file.
/// Claimed: the result is a function of the text alone, named
/// `parsed_file_items`, `None` exactly when `syn` refuses the text.
#[verifier::external_body]
pub(crate) fn parse_file_items(text: &str) -> (r: Option<Vec<FileItem>>)
    ensures
        match parsed_file_items(text@) {
            Some(items) => r matches Some(v) && v@ == items,
            None => r is None,
        },
{
    match syn::parse_file(text) {
        Ok(file) => Some(file.items.iter().map(file_item_of).collect()),
        Err(_) => None,
    }
}

/// A function item as `syn` reads it from source text (`syn::ItemFn`),
/// described by its attributes, name, parameters, return type and body;
/// `None` when the text is not one function item.
pub uninterp spec fn parsed_item_fn(text: Seq<char>) -> Option<ExportedFn>;

/// Calls `syn::parse_str::<syn::ItemFn>` on the text and describes the
/// function. Claimed: the result is a function of the text alone, named
/// `parsed_item_fn`, `None` exactly when `syn` refuses the text.
#[verifier::external_body]
pub(crate) fn parse_item_fn(text: &str) -> (r: Option<ExportedFn>)
    ensures
        r == parsed_item_fn(text@),
{
    match syn::parse_str::<syn::ItemFn>(text) {
        Ok(f) => Some(ExportedFn {
            attrs: f.attrs.iter().map(|a| a.to_token_stream().to_string()).collect(),
            ident: f.sig.ident.to_string(),
            has_receiver: f.sig.receiver().is_some(),
            inputs: f.sig.inputs.iter().map(fn_input_of).collect(),
            output: output_of(&f.sig.output),
            block: f.block.to_token_stream().to_string(),
        }),
        Err(_) => None,
    }
}

} // verus!
