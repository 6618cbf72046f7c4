//! Which interface files the generators accept, said without the order of
//! the checks: a trait path naming a crate, `use` items that are paths not
//! starting at `super`, nothing but `use` items and traits, a first trait
//! with the expected name, and functions without `self` in it.
use vstd::prelude::*;
use crate::codegen::formatted_rust;
use crate::interface_files::{FileKind, file_source, generated_file};
use crate::codegen::{
    CodegenError, FileItem, TraitItemModel, UseItemModel, UseTreeModel, first_item_error, first_separator_from,
    first_trait_from, patched_use, patched_uses, read_trait_file,
};

verus! {

/// The text holds `::` somewhere.
pub open spec fn has_separator(s: Seq<char>) -> bool {
    exists|k: int| 0 <= k && k + 1 < s.len() && s[k] == ':' && #[trigger] s[k + 1] == ':'
}

/// A `use` item that can be copied: a path whose first segment is not
/// `super`.
pub open spec fn copyable_use(u: UseItemModel) -> bool {
    u.tree matches UseTreeModel::Path { first, .. } && first@ != "super"@
}

/// A trait item that is a function not taking `self`.
pub open spec fn function_without_self(item: TraitItemModel) -> bool {
    match item {
        TraitItemModel::Fn(sig) => !sig.has_receiver,
        TraitItemModel::Other => false,
    }
}

proof fn lemma_separator_from(s: Seq<char>, i: int)
    requires
        0 <= i,
    ensures
        first_separator_from(s, i) is Some <==> exists|k: int|
            i <= k && k + 1 < s.len() && s[k] == ':' && #[trigger] s[k + 1] == ':',
        first_separator_from(s, i) matches Some(k) ==> i <= k && k + 1 < s.len() && s[k] == ':' && s[k + 1] == ':'
            && forall|j: int| i <= j < k ==> !(s[j] == ':' && #[trigger] s[j + 1] == ':'),
    decreases s.len() - i,
{
    if i + 2 <= s.len() && !(s[i] == ':' && s[i + 1] == ':') {
        lemma_separator_from(s, i + 1);
        if exists|k: int| i <= k && k + 1 < s.len() && s[k] == ':' && #[trigger] s[k + 1] == ':' {
            let k = choose|k: int| i <= k && k + 1 < s.len() && s[k] == ':' && #[trigger] s[k + 1] == ':';
            assert(i + 1 <= k);
        }
    }
}

proof fn lemma_patched_uses_ok(items: Seq<FileItem>, c: Seq<char>)
    ensures
        patched_uses(items, c) is Ok <==> forall|i: int|
            0 <= i < items.len() && #[trigger] items[i] is Use ==> copyable_use(items[i]->Use_0),
    decreases items.len(),
{
    if items.len() > 0 {
        let init = items.drop_last();
        lemma_patched_uses_ok(init, c);
        assert forall|i: int| 0 <= i < init.len() implies #[trigger] init[i] == items[i] by {}
        if patched_uses(items, c) is Ok {
            assert forall|i: int| 0 <= i < items.len() && #[trigger] items[i] is Use implies copyable_use(
                items[i]->Use_0,
            ) by {
                if i < init.len() {
                    assert(init[i] == items[i]);
                }
            }
        }
        if forall|i: int| 0 <= i < items.len() && #[trigger] items[i] is Use ==> copyable_use(items[i]->Use_0) {
            assert forall|i: int| 0 <= i < init.len() && #[trigger] init[i] is Use implies copyable_use(
                init[i]->Use_0,
            ) by {
                assert(init[i] == items[i]);
            }
            assert(items[items.len() - 1] == items.last());
        }
    }
}

proof fn lemma_first_trait(items: Seq<FileItem>, i: int)
    requires
        0 <= i <= items.len(),
    ensures
        match first_trait_from(items, i) {
            Some(t) => i <= t < items.len() && items[t] is Trait && forall|j: int| i <= j < t ==> !(#[trigger] items[j] is Trait),
            None => forall|j: int| i <= j < items.len() ==> !(#[trigger] items[j] is Trait),
        },
    decreases items.len() - i,
{
    if i < items.len() && !(items[i] is Trait) {
        lemma_first_trait(items, i + 1);
    }
}

/// An interface file is accepted exactly when its trait path names a crate
/// (holds `::`), each of its `use` items is a path that does not start at
/// `super`, it holds nothing but `use` items and traits, and its first
/// trait is named `trait_name`; that first trait is the one used.
pub proof fn law_trait_file_accepted(trait_name: Seq<char>, trait_path: Seq<char>, items: Seq<FileItem>)
    ensures
        read_trait_file(trait_name, trait_path, items) is Ok <==> {
            &&& has_separator(trait_path)
            &&& forall|i: int| 0 <= i < items.len() && #[trigger] items[i] is Use ==> copyable_use(items[i]->Use_0)
            &&& forall|i: int| 0 <= i < items.len() ==> !(#[trigger] items[i] is Other)
            &&& exists|t: int|
                0 <= t < items.len() && #[trigger] items[t] is Trait && items[t]->Trait_0.ident@ == trait_name
                    && forall|j: int| 0 <= j < t ==> !(#[trigger] items[j] is Trait)
        },
        read_trait_file(trait_name, trait_path, items) matches Ok((t, _)) ==> 0 <= t < items.len()
            && items[t] is Trait && forall|j: int| 0 <= j < t ==> !(#[trigger] items[j] is Trait),
{
    lemma_separator_from(trait_path, 0);
    if let Some(k) = first_separator_from(trait_path, 0) {
        lemma_patched_uses_ok(items, trait_path.subrange(0, k));
    }
    lemma_first_trait(items, 0);
    if exists|t: int|
        0 <= t < items.len() && #[trigger] items[t] is Trait && items[t]->Trait_0.ident@ == trait_name && forall|
            j: int,
        |
            0 <= j < t ==> !(#[trigger] items[j] is Trait) {
        let t = choose|t: int|
            0 <= t < items.len() && #[trigger] items[t] is Trait && items[t]->Trait_0.ident@ == trait_name && forall|
                j: int,
            |
                0 <= j < t ==> !(#[trigger] items[j] is Trait);
        match first_trait_from(items, 0) {
            Some(f) => {
                if f < t {
                    assert(!(items[f] is Trait));
                } else if t < f {
                    assert(!(items[t] is Trait));
                }
            },
            None => {
                assert(!(items[t] is Trait));
            },
        }
    }
}

/// The functions of a trait are accepted exactly when every item of the
/// trait is a function that does not take `self`.
pub proof fn law_trait_items_accepted(items: Seq<TraitItemModel>)
    ensures
        first_item_error(items) is None <==> forall|k: int|
            0 <= k < items.len() ==> function_without_self(#[trigger] items[k]),
    decreases items.len(),
{
    if items.len() > 0 {
        let init = items.drop_last();
        law_trait_items_accepted(init);
        assert forall|k: int| 0 <= k < init.len() implies #[trigger] init[k] == items[k] by {}
        assert(items[items.len() - 1] == items.last());
        if first_item_error(items) is None {
            assert forall|k: int| 0 <= k < items.len() implies function_without_self(#[trigger] items[k]) by {
                if k < init.len() {
                    assert(init[k] == items[k]);
                } else {
                    assert(items[k] == items.last());
                }
            }
        }
        if forall|k: int| 0 <= k < items.len() ==> function_without_self(#[trigger] items[k]) {
            assert(function_without_self(items[items.len() - 1]));
            assert forall|k: int| 0 <= k < init.len() implies function_without_self(#[trigger] init[k]) by {
                assert(init[k] == items[k]);
            }
        }
    }
}

/// A `use` item that starts at `crate` is rewritten to start at the trait's
/// crate instead; any other copyable `use` item is copied as written; one
/// that starts at `super`, or is not a path, is refused.
pub proof fn law_use_items_rewritten(u: UseItemModel, crate_name: Seq<char>)
    ensures
        patched_use(u, crate_name) == match u.tree {
            UseTreeModel::Path { first, rest } => if first@ == "super"@ {
                Err(CodegenError::SuperImport)
            } else if first@ == "crate"@ {
                Ok("use "@ + crate_name + "::"@ + rest@ + ";"@)
            } else {
                Ok(u.text@)
            },
            UseTreeModel::Other => Err(CodegenError::UnexpectedUseSyntax),
        },
{
}

/// Every generated file starts with the two lines that say it is
/// generated and must not be edited, followed by the laid-out source; a
/// refused interface file, or source that does not parse, gives no file.
pub proof fn law_generated_files_carry_the_header(kind: FileKind, trait_path: Seq<char>, items: Seq<FileItem>)
    ensures
        match file_source(kind, trait_path, items) {
            Err(e) => generated_file(kind, trait_path, items) == Err::<Seq<char>, CodegenError>(e),
            Ok(source) => match formatted_rust(source) {
                Some(code) => generated_file(kind, trait_path, items) == Ok::<Seq<char>, CodegenError>(
                    "// This file is generated, DO NOT edit manually\n// ---------------------------------------------\n\n"@
                        + code,
                ),
                None => generated_file(kind, trait_path, items) == Err::<Seq<char>, CodegenError>(
                    CodegenError::Unformattable,
                ),
            },
        },
{
}

/// The crate a trait path names is the text before its first `::`: the
/// path holds `::` there and nowhere before; a path without `::` names no
/// crate.
pub proof fn law_crate_is_before_first_separator(trait_path: Seq<char>)
    ensures
        match first_separator_from(trait_path, 0) {
            Some(k) => 0 <= k && k + 1 < trait_path.len() && trait_path[k] == ':' && trait_path[k + 1] == ':'
                && forall|j: int| 0 <= j < k ==> !(trait_path[j] == ':' && #[trigger] trait_path[j + 1] == ':'),
            None => !has_separator(trait_path),
        },
{
    lemma_separator_from(trait_path, 0);
}

/// Every generated source starts with the interface file's `use` items,
/// rewritten; the host's exports source then defines `ModuleExports`, the
/// host's imports source imports the trait under the given path as
/// `Imports` and defines `ModuleImportsImpl` and `init_imports`, and the
/// module's exports source imports it as `Exports` and defines
/// `ModuleExportsImpl`.
pub proof fn law_generated_sources_open_with_uses_and_trait(
    kind: FileKind,
    uses: Seq<char>,
    trait_path: Seq<char>,
    fs: Seq<crate::codegen::FnText>,
)
    ensures
        ({
            let code = crate::interface_files::file_text(kind, uses, trait_path, fs);
            match kind {
                FileKind::HostExports => exists|rest: Seq<char>| code == uses + "pub struct ModuleExports {\n"@ + rest,
                FileKind::HostImports => exists|rest: Seq<char>|
                    code == uses + "use "@ + trait_path
                        + " as Imports;\n/// Struct for implementing your `Imports` trait\npub struct ModuleImportsImpl;\npub fn init_imports(library: &libloading::Library) {\n"@
                        + rest,
                FileKind::ModuleExports { .. } => exists|rest: Seq<char>|
                    code == uses + "use "@ + trait_path
                        + " as Exports;\n/// Struct for implementing your `Exports` trait\npub struct ModuleExportsImpl;\n"@
                        + rest,
                FileKind::ModuleImports => exists|rest: Seq<char>| code == uses + rest,
            }
        }),
{
    let code = crate::interface_files::file_text(kind, uses, trait_path, fs);
    match kind {
        FileKind::HostExports => {
            let rest = code.subrange((uses + "pub struct ModuleExports {\n"@).len() as int, code.len() as int);
            assert(code =~= uses + "pub struct ModuleExports {\n"@ + rest);
        },
        FileKind::HostImports => {
            let head = uses + "use "@ + trait_path
                + " as Imports;\n/// Struct for implementing your `Imports` trait\npub struct ModuleImportsImpl;\npub fn init_imports(library: &libloading::Library) {\n"@;
            let rest = code.subrange(head.len() as int, code.len() as int);
            assert(code =~= head + rest);
        },
        FileKind::ModuleExports { .. } => {
            let head = uses + "use "@ + trait_path
                + " as Exports;\n/// Struct for implementing your `Exports` trait\npub struct ModuleExportsImpl;\n"@;
            let rest = code.subrange(head.len() as int, code.len() as int);
            assert(code =~= head + rest);
        },
        FileKind::ModuleImports => {
            let rest = code.subrange(uses.len() as int, code.len() as int);
            assert(code =~= uses + rest);
        },
    }
}

} // verus!
