//! What the host's and the module's generated sources, built from the same
//! interface file, agree on: the symbol of every function of the trait.
use vstd::prelude::*;
use crate::codegen::{FileItem, FnText, join_texts, last_path_piece, mangled_name_text, read_trait_file, sig_text};
use crate::interface_files::{FileKind, file_source};
use crate::templates::{Piece, piece_fn, piece_text, law_host_and_module_agree_on_symbols};

verus! {

/// `x` occurs in `s`.
pub open spec fn occurs_in(x: Seq<char>, s: Seq<char>) -> bool {
    exists|i: int| 0 <= i && i + x.len() <= s.len() && #[trigger] s.subrange(i, i + x.len()) == x
}

proof fn lemma_occurs_left(x: Seq<char>, a: Seq<char>, b: Seq<char>)
    requires
        occurs_in(x, a),
    ensures
        occurs_in(x, a + b),
{
    let i = choose|i: int| 0 <= i && i + x.len() <= a.len() && #[trigger] a.subrange(i, i + x.len()) == x;
    assert((a + b).subrange(i, i + x.len()) =~= a.subrange(i, i + x.len()));
}

proof fn lemma_occurs_right(x: Seq<char>, a: Seq<char>, b: Seq<char>)
    requires
        occurs_in(x, b),
    ensures
        occurs_in(x, a + b),
{
    let i = choose|i: int| 0 <= i && i + x.len() <= b.len() && #[trigger] b.subrange(i, i + x.len()) == x;
    assert((a + b).subrange(a.len() + i, a.len() + i + x.len() as int) =~= b.subrange(i, i + x.len()));
}

pub proof fn lemma_occurs_middle(x: Seq<char>, p: Seq<char>, q: Seq<char>)
    ensures
        occurs_in(x, p + x + q),
{
    assert((p + x + q).subrange(p.len() as int, (p.len() + x.len()) as int) =~= x);
}

/// What occurs in one function's piece occurs in the pieces joined.
proof fn lemma_occurs_in_join(x: Seq<char>, fs: Seq<FnText>, piece: spec_fn(FnText) -> Seq<char>, k: int)
    requires
        0 <= k < fs.len(),
        occurs_in(x, piece(fs[k])),
    ensures
        occurs_in(x, join_texts(fs, piece)),
    decreases fs.len(),
{
    if k == fs.len() - 1 {
        lemma_occurs_right(x, join_texts(fs.drop_last(), piece), piece(fs.last()));
    } else {
        assert(fs.drop_last()[k] == fs[k]);
        lemma_occurs_in_join(x, fs.drop_last(), piece, k);
        lemma_occurs_left(x, join_texts(fs.drop_last(), piece), piece(fs.last()));
    }
}

/// The lookup the host makes of a symbol.
pub open spec fn host_lookup(symbol: Seq<char>) -> Seq<char> {
    r#"*library.get(concat!(""#@ + symbol
}

/// The function the module exports under a symbol.
pub open spec fn module_export(symbol: Seq<char>) -> Seq<char> {
    r#"extern "C" fn "#@ + symbol + "("@
}

/// The static the module's import goes through, under a symbol.
pub open spec fn module_import(symbol: Seq<char>) -> Seq<char> {
    "static mut "@ + symbol + ": "@
}

/// The symbol of the `k`-th item of the trait declared in the file.
pub open spec fn trait_symbol(trait_path: Seq<char>, items: Seq<FileItem>, k: int) -> Seq<char> {
    let name = last_path_piece(trait_path);
    let t = read_trait_file(name, trait_path, items)->Ok_0.0;
    mangled_name_text(name, items[t]->Trait_0.items@[k]->Fn_0.ident@)
}

/// The number of items of the trait declared in the file.
pub open spec fn trait_len(trait_path: Seq<char>, items: Seq<FileItem>) -> int {
    let t = read_trait_file(last_path_piece(trait_path), trait_path, items)->Ok_0.0;
    items[t]->Trait_0.items@.len() as int
}

/// A piece of every function occurs in the joined pieces of the file's
/// trait, for the function's symbol.
proof fn lemma_piece_occurs(
    trait_path: Seq<char>,
    items: Seq<FileItem>,
    k: int,
    piece: Piece,
    x: Seq<char>,
)
    requires
        read_trait_file(last_path_piece(trait_path), trait_path, items) is Ok,
        0 <= k < trait_len(trait_path, items),
        occurs_in(
            x,
            piece_text(
                piece,
                sig_text(
                    last_path_piece(trait_path),
                    items[read_trait_file(last_path_piece(trait_path), trait_path, items)->Ok_0.0]->Trait_0.items@[k]->Fn_0,
                ),
            ),
        ),
    ensures
        ({
            let name = last_path_piece(trait_path);
            let t = read_trait_file(name, trait_path, items)->Ok_0.0;
            occurs_in(x, join_texts(crate::codegen::fn_texts(name, items[t]->Trait_0.items@), piece_fn(piece)))
        }),
{
    let name = last_path_piece(trait_path);
    let t = read_trait_file(name, trait_path, items)->Ok_0.0;
    let fs = crate::codegen::fn_texts(name, items[t]->Trait_0.items@);
    assert(fs[k] == sig_text(name, items[t]->Trait_0.items@[k]->Fn_0));
    lemma_occurs_in_join(x, fs, piece_fn(piece), k);
}

/// Generated from the same interface file, the host's exports source looks
/// every function of the trait up under exactly the symbol under which the
/// module's exports source defines it, whether or not the module's exports
/// catch panics.
pub proof fn law_exports_agree_on_symbols(trait_path: Seq<char>, items: Seq<FileItem>, catch_panics: bool, k: int)
    requires
        file_source(FileKind::HostExports, trait_path, items) is Ok,
        file_source(FileKind::ModuleExports { catch_panics }, trait_path, items) is Ok,
        0 <= k < trait_len(trait_path, items),
    ensures
        occurs_in(
            host_lookup(trait_symbol(trait_path, items, k)),
            file_source(FileKind::HostExports, trait_path, items)->Ok_0,
        ),
        occurs_in(
            module_export(trait_symbol(trait_path, items, k)),
            file_source(FileKind::ModuleExports { catch_panics }, trait_path, items)->Ok_0,
        ),
{
    let name = last_path_piece(trait_path);
    let t = read_trait_file(name, trait_path, items)->Ok_0.0;
    let uses = read_trait_file(name, trait_path, items)->Ok_0.1;
    let sig = items[t]->Trait_0.items@[k]->Fn_0;
    let m = trait_symbol(trait_path, items, k);
    law_host_and_module_agree_on_symbols(name, sig);
    let ts = sig_text(name, sig);
    assert(m == mangled_name_text(name, sig.ident@));
    let (p1, q1) = choose|p: Seq<char>, q: Seq<char>|
        piece_text(Piece::HostExportInit, ts) == p + (r#"*library.get(concat!(""#@ + m) + q;
    lemma_occurs_middle(host_lookup(m), p1, q1);
    lemma_piece_occurs(trait_path, items, k, Piece::HostExportInit, host_lookup(m));
    let fs = crate::codegen::fn_texts(name, items[t]->Trait_0.items@);
    let a = uses + "pub struct ModuleExports {\n"@ + join_texts(fs, piece_fn(Piece::HostExportField))
        + "}\nimpl ModuleExports {\npub unsafe fn new(library: &libloading::Library) -> Self {\nSelf {\n"@;
    let j = join_texts(fs, piece_fn(Piece::HostExportInit));
    let b = "}\n}\n"@ + join_texts(fs, piece_fn(Piece::HostExportMethod)) + "}\n"@;
    lemma_occurs_right(host_lookup(m), a, j);
    lemma_occurs_left(host_lookup(m), a + j, b);
    assert(file_source(FileKind::HostExports, trait_path, items)->Ok_0 =~= a + j + b);
    let piece = if catch_panics {
        Piece::ModuleExportCatching
    } else {
        Piece::ModuleExport
    };
    let (p2, q2) = choose|p: Seq<char>, q: Seq<char>|
        piece_text(piece, ts) == p + r#"extern "C" fn "#@ + m + "("@ + q;
    assert(piece_text(piece, ts) =~= p2 + module_export(m) + q2);
    lemma_occurs_middle(module_export(m), p2, q2);
    lemma_piece_occurs(trait_path, items, k, piece, module_export(m));
    let a2 = uses + "use "@ + trait_path
        + " as Exports;\n/// Struct for implementing your `Exports` trait\npub struct ModuleExportsImpl;\n"@;
    let j2 = join_texts(fs, piece_fn(piece));
    lemma_occurs_right(module_export(m), a2, j2);
    assert(file_source(FileKind::ModuleExports { catch_panics }, trait_path, items)->Ok_0 == a2 + j2);
}

/// Generated from the same interface file, the host's imports source
/// installs every function of the trait under exactly the symbol of the
/// static through which the module's imports source calls it.
pub proof fn law_imports_agree_on_symbols(trait_path: Seq<char>, items: Seq<FileItem>, k: int)
    requires
        file_source(FileKind::HostImports, trait_path, items) is Ok,
        file_source(FileKind::ModuleImports, trait_path, items) is Ok,
        0 <= k < trait_len(trait_path, items),
    ensures
        occurs_in(
            host_lookup(trait_symbol(trait_path, items, k)),
            file_source(FileKind::HostImports, trait_path, items)->Ok_0,
        ),
        occurs_in(
            module_import(trait_symbol(trait_path, items, k)),
            file_source(FileKind::ModuleImports, trait_path, items)->Ok_0,
        ),
{
    let name = last_path_piece(trait_path);
    let t = read_trait_file(name, trait_path, items)->Ok_0.0;
    let uses = read_trait_file(name, trait_path, items)->Ok_0.1;
    let sig = items[t]->Trait_0.items@[k]->Fn_0;
    let m = trait_symbol(trait_path, items, k);
    law_host_and_module_agree_on_symbols(name, sig);
    let ts = sig_text(name, sig);
    let fs = crate::codegen::fn_texts(name, items[t]->Trait_0.items@);
    assert(m == mangled_name_text(name, sig.ident@));
    let (p1, q1) = choose|p: Seq<char>, q: Seq<char>|
        piece_text(Piece::HostImportInstall, ts) == p + (r#"*library.get(concat!(""#@ + m) + q;
    lemma_occurs_middle(host_lookup(m), p1, q1);
    lemma_piece_occurs(trait_path, items, k, Piece::HostImportInstall, host_lookup(m));
    let a = uses + "use "@ + trait_path
        + " as Imports;\n/// Struct for implementing your `Imports` trait\npub struct ModuleImportsImpl;\npub fn init_imports(library: &libloading::Library) {\n"@;
    let j = join_texts(fs, piece_fn(Piece::HostImportInstall));
    lemma_occurs_right(host_lookup(m), a, j);
    lemma_occurs_left(host_lookup(m), a + j, "}\n"@);
    assert(file_source(FileKind::HostImports, trait_path, items)->Ok_0 == a + j + "}\n"@);
    let (p2, q2) = choose|p: Seq<char>, q: Seq<char>|
        piece_text(Piece::ModuleImport, ts) == p + "static mut "@ + m + ": "@ + q;
    assert(piece_text(Piece::ModuleImport, ts) =~= p2 + module_import(m) + q2);
    lemma_occurs_middle(module_import(m), p2, q2);
    lemma_piece_occurs(trait_path, items, k, Piece::ModuleImport, module_import(m));
    let j2 = join_texts(fs, piece_fn(Piece::ModuleImport));
    lemma_occurs_right(module_import(m), uses, j2);
    assert(file_source(FileKind::ModuleImports, trait_path, items)->Ok_0 == uses + j2);
}

} // verus!
