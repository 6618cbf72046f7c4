//! The per-function pieces of generated interface code, as text.
use vstd::prelude::*;
use vstd::string::StringExecFns;
use crate::codegen::{FnText, TraitFn, join_texts, lemma_join_all, lemma_join_step, unsafety_text};

verus! {

/// Which piece of generated code to write for each function.
#[derive(Clone, Copy, PartialEq, Eq, Structural, Debug)]
pub enum Piece {
    /// Host side: a field holding the module's function pointer.
    HostExportField,
    /// Host side: looking the function up in the loaded library.
    HostExportInit,
    /// Host side: a method calling through the function pointer.
    HostExportMethod,
    /// Host side: installing the host's implementation of an import.
    HostImportInstall,
    /// Module side: an exported symbol forwarding to the implementation.
    ModuleExport,
    /// Module side: an exported symbol that catches panics and reports
    /// whether the call returned.
    ModuleExportCatching,
    /// Module side: a function calling the host through a symbol that the
    /// host fills in.
    ModuleImport,
}

/// Looking a symbol up in a loaded library, failing with a message that
/// names what was sought.
pub open spec fn library_lookup(mangled_name: Seq<char>, what: Seq<char>) -> Seq<char> {
    r#"*library.get(concat!(""#@ + mangled_name + r#"", "\0").as_bytes()).expect("Failed to get \""#@
        + what
}

/// The tail of an exported function that catches panics: store the value
/// if the call returned, report whether it did.
pub open spec fn catching_tail() -> Seq<char> {
    "match result {\nOk(value) => {\nunsafe {\n(*____return_value____).write(value);\n}\ntrue\n}\nErr(_) => { false }\n}\n}\n"@
}

/// The text of one piece for one function.
pub open spec fn piece_text(piece: Piece, f: FnText) -> Seq<char> {
    match piece {
        Piece::HostExportField => f.ident + ": "@ + unsafety_text(f.is_unsafe) + r#"extern "C" fn("#@
            + f.inputs + ") "@ + f.output + ",\n"@,
        Piece::HostExportInit => f.ident + ": "@ + library_lookup(f.mangled_name, f.ident)
            + r#"\" fn symbol from module (mangled name: \""#@ + f.mangled_name + r#"\")"),"#@
            + "\n"@,
        Piece::HostExportMethod => "pub "@ + unsafety_text(f.is_unsafe) + "fn "@ + f.ident
            + "(&self, "@ + f.inputs + ") "@ + f.output + " {\n(self."@ + f.ident + ")("@
            + f.inputs_without_types + ")\n}\n"@,
        Piece::HostImportInstall => "unsafe {\nlet ptr: *mut "@ + unsafety_text(f.is_unsafe)
            + r#"extern "C" fn("#@ + f.inputs + ") "@ + f.output + " = "@ + library_lookup(
            f.mangled_name,
            f.mangled_name,
        ) + r#"\" symbol of static function pointer from module");"#@ + "\n*ptr = impl_;\n"@
            + unsafety_text(f.is_unsafe) + r#"extern "C" fn impl_("#@ + f.inputs + ") "@ + f.output
            + " {\n<ModuleImportsImpl as Imports>::"@ + f.ident + "("@ + f.inputs_without_types
            + ")\n}\n}\n"@,
        Piece::ModuleExport => "#[unsafe(no_mangle)]\npub "@ + unsafety_text(f.is_unsafe)
            + r#"extern "C" fn "#@ + f.mangled_name + "("@ + f.inputs + ") "@ + f.output
            + " {\n<ModuleExportsImpl as Exports>::"@ + f.ident + "("@ + f.inputs_without_types
            + ")\n}\n"@,
        Piece::ModuleExportCatching => "#[unsafe(no_mangle)]\npub "@ + unsafety_text(f.is_unsafe)
            + r#"extern "C" fn "#@ + f.mangled_name
            + "(____return_value____: *mut std::mem::MaybeUninit<"@ + f.return_type + ">, "@
            + f.inputs
            + ") -> bool {\nlet result = std::panic::catch_unwind(move || {\n<ModuleExportsImpl as Exports>::"@
            + f.ident + "("@ + f.inputs_without_types + ")\n});\n"@ + catching_tail(),
        Piece::ModuleImport => "pub "@ + unsafety_text(f.is_unsafe) + "fn "@ + f.ident + "("@
            + f.inputs + ") "@ + f.output
            + " {\n#[allow(non_upper_case_globals)]\n#[unsafe(no_mangle)]\nstatic mut "@
            + f.mangled_name + ": "@ + unsafety_text(f.is_unsafe) + r#"extern "C" fn("#@ + f.inputs
            + ") "@ + f.output + " = placeholder;\n"@ + unsafety_text(f.is_unsafe)
            + r#"extern "C" fn placeholder("#@ + f.placeholder_inputs + ") "@ + f.output
            + " {\nunreachable!();\n}\nunsafe {\n"@ + f.mangled_name + "("@
            + f.inputs_without_types + ")\n}\n}\n"@,
    }
}

/// `piece_text` for one piece, as a function of the function's text.
pub open spec fn piece_fn(piece: Piece) -> spec_fn(FnText) -> Seq<char> {
    |f: FnText| piece_text(piece, f)
}

fn append_unsafety(t: &mut String, is_unsafe: bool)
    ensures
        final(t)@ == old(t)@ + unsafety_text(is_unsafe),
{
    if is_unsafe {
        t.append("unsafe ");
    } else {
        assert(old(t)@ + unsafety_text(is_unsafe) =~= old(t)@);
    }
}

fn append_lookup(t: &mut String, mangled_name: &String, what: &String)
    ensures
        final(t)@ == old(t)@ + library_lookup(mangled_name@, what@),
{
    t.append(r#"*library.get(concat!(""#);
    t.append(mangled_name.as_str());
    t.append(r#"", "\0").as_bytes()).expect("Failed to get \""#);
    t.append(what.as_str());
    assert(final(t)@ =~= old(t)@ + library_lookup(mangled_name@, what@));
}

fn append_host_export_field(t: &mut String, f: &TraitFn)
    ensures
        final(t)@ == old(t)@ + piece_text(Piece::HostExportField, f@),
{
    let ghost start = t@;
        t.append(f.ident.as_str());
        t.append(": ");
        append_unsafety(t, f.is_unsafe);
        t.append(r#"extern "C" fn("#);
        t.append(f.inputs.as_str());
        t.append(") ");
        t.append(f.output.as_str());
        t.append(",\n");
    assert(t@ =~= start + piece_text(Piece::HostExportField, f@));
}

fn append_host_export_init(t: &mut String, f: &TraitFn)
    ensures
        final(t)@ == old(t)@ + piece_text(Piece::HostExportInit, f@),
{
    let ghost start = t@;
        t.append(f.ident.as_str());
        t.append(": ");
        append_lookup(t, &f.mangled_name, &f.ident);
        t.append(r#"\" fn symbol from module (mangled name: \""#);
        t.append(f.mangled_name.as_str());
        t.append(r#"\")"),"#);
        t.append("\n");
    assert(t@ =~= start + piece_text(Piece::HostExportInit, f@));
}

fn append_host_export_method(t: &mut String, f: &TraitFn)
    ensures
        final(t)@ == old(t)@ + piece_text(Piece::HostExportMethod, f@),
{
    let ghost start = t@;
        t.append("pub ");
        append_unsafety(t, f.is_unsafe);
        t.append("fn ");
        t.append(f.ident.as_str());
        t.append("(&self, ");
        t.append(f.inputs.as_str());
        t.append(") ");
        t.append(f.output.as_str());
        t.append(" {\n(self.");
        t.append(f.ident.as_str());
        t.append(")(");
        t.append(f.inputs_without_types.as_str());
        t.append(")\n}\n");
    assert(t@ =~= start + piece_text(Piece::HostExportMethod, f@));
}

/// The start of the installation of one import: the lookup of the
/// module's function pointer, and the store into it.
pub open spec fn host_import_lookup(f: FnText) -> Seq<char> {
    "unsafe {\nlet ptr: *mut "@ + unsafety_text(f.is_unsafe) + r#"extern "C" fn("#@ + f.inputs + ") "@
        + f.output + " = "@ + library_lookup(f.mangled_name, f.mangled_name)
        + r#"\" symbol of static function pointer from module");"#@ + "\n*ptr = impl_;\n"@
}

/// The rest of the installation: the function stored, which calls the
/// host's implementation.
pub open spec fn host_import_impl(f: FnText) -> Seq<char> {
    unsafety_text(f.is_unsafe) + r#"extern "C" fn impl_("#@ + f.inputs + ") "@ + f.output
        + " {\n<ModuleImportsImpl as Imports>::"@ + f.ident + "("@ + f.inputs_without_types + ")\n}\n}\n"@
}

proof fn lemma_host_import_parts(f: FnText)
    ensures
        piece_text(Piece::HostImportInstall, f) == host_import_lookup(f) + host_import_impl(f),
{
    assert(piece_text(Piece::HostImportInstall, f) =~= host_import_lookup(f) + host_import_impl(f));
}

fn append_host_import_lookup(t: &mut String, f: &TraitFn)
    ensures
        final(t)@ == old(t)@ + host_import_lookup(f@),
{
    let ghost start = t@;
    t.append("unsafe {\nlet ptr: *mut ");
    append_unsafety(t, f.is_unsafe);
    t.append(r#"extern "C" fn("#);
    t.append(f.inputs.as_str());
    t.append(") ");
    t.append(f.output.as_str());
    t.append(" = ");
    append_lookup(t, &f.mangled_name, &f.mangled_name);
    t.append(r#"\" symbol of static function pointer from module");"#);
    t.append("\n*ptr = impl_;\n");
    assert(t@ =~= start + host_import_lookup(f@));
}

fn append_host_import_impl(t: &mut String, f: &TraitFn)
    ensures
        final(t)@ == old(t)@ + host_import_impl(f@),
{
    let ghost start = t@;
    append_unsafety(t, f.is_unsafe);
    t.append(r#"extern "C" fn impl_("#);
    t.append(f.inputs.as_str());
    t.append(") ");
    t.append(f.output.as_str());
    t.append(" {\n<ModuleImportsImpl as Imports>::");
    t.append(f.ident.as_str());
    t.append("(");
    t.append(f.inputs_without_types.as_str());
    t.append(")\n}\n}\n");
    assert(t@ =~= start + host_import_impl(f@));
}

fn append_host_import_install(t: &mut String, f: &TraitFn)
    ensures
        final(t)@ == old(t)@ + piece_text(Piece::HostImportInstall, f@),
{
    let ghost start = t@;
    proof {
        lemma_host_import_parts(f@);
    }
    append_host_import_lookup(t, f);
    append_host_import_impl(t, f);
    assert(t@ =~= start + (host_import_lookup(f@) + host_import_impl(f@)));
}

fn append_module_export(t: &mut String, f: &TraitFn)
    ensures
        final(t)@ == old(t)@ + piece_text(Piece::ModuleExport, f@),
{
    let ghost start = t@;
        t.append("#[unsafe(no_mangle)]\npub ");
        append_unsafety(t, f.is_unsafe);
        t.append(r#"extern "C" fn "#);
        t.append(f.mangled_name.as_str());
        t.append("(");
        t.append(f.inputs.as_str());
        t.append(") ");
        t.append(f.output.as_str());
        t.append(" {\n<ModuleExportsImpl as Exports>::");
        t.append(f.ident.as_str());
        t.append("(");
        t.append(f.inputs_without_types.as_str());
        t.append(")\n}\n");
    assert(t@ =~= start + piece_text(Piece::ModuleExport, f@));
}

fn append_module_export_catching(t: &mut String, f: &TraitFn)
    ensures
        final(t)@ == old(t)@ + piece_text(Piece::ModuleExportCatching, f@),
{
    let ghost start = t@;
        t.append("#[unsafe(no_mangle)]\npub ");
        append_unsafety(t, f.is_unsafe);
        t.append(r#"extern "C" fn "#);
        t.append(f.mangled_name.as_str());
        t.append("(____return_value____: *mut std::mem::MaybeUninit<");
        t.append(f.return_type.as_str());
        t.append(">, ");
        t.append(f.inputs.as_str());
        t.append(
            ") -> bool {\nlet result = std::panic::catch_unwind(move || {\n<ModuleExportsImpl as Exports>::",
        );
        t.append(f.ident.as_str());
        t.append("(");
        t.append(f.inputs_without_types.as_str());
        t.append(")\n});\n");
        t.append(
            "match result {\nOk(value) => {\nunsafe {\n(*____return_value____).write(value);\n}\ntrue\n}\nErr(_) => { false }\n}\n}\n",
        );
    assert(t@ =~= start + piece_text(Piece::ModuleExportCatching, f@));
}

/// The declarations at the start of a module's import function, up to the
/// type of its function pointer.
pub open spec fn module_import_head(f: FnText) -> Seq<char> {
    "pub "@ + unsafety_text(f.is_unsafe) + "fn "@ + f.ident + "("@ + f.inputs + ") "@ + f.output
        + " {\n#[allow(non_upper_case_globals)]\n#[unsafe(no_mangle)]\nstatic mut "@ + f.mangled_name + ": "@
}

/// The rest of a module's import function.
pub open spec fn module_import_tail(f: FnText) -> Seq<char> {
    unsafety_text(f.is_unsafe) + r#"extern "C" fn("#@ + f.inputs + ") "@ + f.output + " = placeholder;\n"@
        + unsafety_text(f.is_unsafe) + r#"extern "C" fn placeholder("#@ + f.placeholder_inputs + ") "@
        + f.output + " {\nunreachable!();\n}\nunsafe {\n"@ + f.mangled_name + "("@ + f.inputs_without_types
        + ")\n}\n}\n"@
}

proof fn lemma_module_import_parts(f: FnText)
    ensures
        piece_text(Piece::ModuleImport, f) == module_import_head(f) + module_import_tail(f),
{
    assert(piece_text(Piece::ModuleImport, f) =~= module_import_head(f) + module_import_tail(f));
}

fn append_module_import_head(t: &mut String, f: &TraitFn)
    ensures
        final(t)@ == old(t)@ + module_import_head(f@),
{
    let ghost start = t@;
    t.append("pub ");
    append_unsafety(t, f.is_unsafe);
    t.append("fn ");
    t.append(f.ident.as_str());
    t.append("(");
    t.append(f.inputs.as_str());
    t.append(") ");
    t.append(f.output.as_str());
    t.append(" {\n#[allow(non_upper_case_globals)]\n#[unsafe(no_mangle)]\nstatic mut ");
    t.append(f.mangled_name.as_str());
    t.append(": ");
    assert(t@ =~= start + module_import_head(f@));
}

fn append_module_import_tail(t: &mut String, f: &TraitFn)
    ensures
        final(t)@ == old(t)@ + module_import_tail(f@),
{
    let ghost start = t@;
    append_unsafety(t, f.is_unsafe);
    t.append(r#"extern "C" fn("#);
    t.append(f.inputs.as_str());
    t.append(") ");
    t.append(f.output.as_str());
    t.append(" = placeholder;\n");
    append_unsafety(t, f.is_unsafe);
    t.append(r#"extern "C" fn placeholder("#);
    t.append(f.placeholder_inputs.as_str());
    t.append(") ");
    t.append(f.output.as_str());
    t.append(" {\nunreachable!();\n}\nunsafe {\n");
    t.append(f.mangled_name.as_str());
    t.append("(");
    t.append(f.inputs_without_types.as_str());
    t.append(")\n}\n}\n");
    assert(t@ =~= start + module_import_tail(f@));
}

fn append_module_import(t: &mut String, f: &TraitFn)
    ensures
        final(t)@ == old(t)@ + piece_text(Piece::ModuleImport, f@),
{
    let ghost start = t@;
    proof {
        lemma_module_import_parts(f@);
    }
    append_module_import_head(t, f);
    append_module_import_tail(t, f);
    assert(t@ =~= start + (module_import_head(f@) + module_import_tail(f@)));
}

/// Appends one piece of code for one function.
pub fn append_piece(t: &mut String, piece: Piece, f: &TraitFn)
    ensures
        final(t)@ == old(t)@ + piece_text(piece, f@),
{
    match piece {
        Piece::HostExportField => append_host_export_field(t, f),
        Piece::HostExportInit => append_host_export_init(t, f),
        Piece::HostExportMethod => append_host_export_method(t, f),
        Piece::HostImportInstall => append_host_import_install(t, f),
        Piece::ModuleExport => append_module_export(t, f),
        Piece::ModuleExportCatching => append_module_export_catching(t, f),
        Piece::ModuleImport => append_module_import(t, f),
    }
}

/// Appends one piece per function, in order.
pub fn append_pieces(t: &mut String, piece: Piece, fs: &Vec<TraitFn>)
    ensures
        final(t)@ == old(t)@ + join_texts(fs@.map_values(|f: TraitFn| f@), piece_fn(piece)),
{
    let ghost start = t@;
    let ghost texts = fs@.map_values(|f: TraitFn| f@);
    let mut i: usize = 0;
    while i < fs.len()
        invariant
            0 <= i <= fs@.len(),
            texts == fs@.map_values(|f: TraitFn| f@),
            t@ == start + join_texts(texts.take(i as int), piece_fn(piece)),
        decreases fs@.len() - i,
    {
        append_piece(t, piece, &fs[i]);
        proof {
            lemma_join_step(texts, i as int, piece_fn(piece));
            assert(texts[i as int] == fs@[i as int]@);
            assert(piece_fn(piece)(texts[i as int]) == piece_text(piece, fs@[i as int]@));
        }
        i = i + 1;
        assert(t@ =~= start + join_texts(texts.take(i as int), piece_fn(piece)));
    }
    proof {
        lemma_join_all(texts, piece_fn(piece));
    }
}

proof fn lemma_host_export_lookup(t: FnText)
    ensures
        piece_text(Piece::HostExportInit, t) == t.ident + ": "@ + (r#"*library.get(concat!(""#@ + t.mangled_name)
            + (r#"", "\0").as_bytes()).expect("Failed to get \""#@ + t.ident
            + r#"\" fn symbol from module (mangled name: \""#@ + t.mangled_name + r#"\")"),"#@ + "\n"@),
{
    assert(piece_text(Piece::HostExportInit, t) =~= t.ident + ": "@ + (r#"*library.get(concat!(""#@ + t.mangled_name)
            + (r#"", "\0").as_bytes()).expect("Failed to get \""#@ + t.ident
            + r#"\" fn symbol from module (mangled name: \""#@ + t.mangled_name + r#"\")"),"#@ + "\n"@));
}

#[verifier::rlimit(40)]
proof fn lemma_host_import_lookup(t: FnText)
    ensures
        exists|p: Seq<char>, q: Seq<char>|
            piece_text(Piece::HostImportInstall, t) == p + (r#"*library.get(concat!(""#@ + t.mangled_name) + q,
{
    let p2 = "unsafe {\nlet ptr: *mut "@ + unsafety_text(t.is_unsafe) + r#"extern "C" fn("#@ + t.inputs + ") "@ + t.output + " = "@;
    let q2 = r#"", "\0").as_bytes()).expect("Failed to get \""#@ + t.mangled_name
        + r#"\" symbol of static function pointer from module");"#@ + "\n*ptr = impl_;\n"@
        + unsafety_text(t.is_unsafe) + r#"extern "C" fn impl_("#@ + t.inputs + ") "@ + t.output
        + " {\n<ModuleImportsImpl as Imports>::"@ + t.ident + "("@ + t.inputs_without_types + ")\n}\n}\n"@;
    assert(piece_text(Piece::HostImportInstall, t) =~= p2 + (r#"*library.get(concat!(""#@ + t.mangled_name) + q2);
}

proof fn lemma_catching_prefix()
    ensures
        "(____return_value____: *mut std::mem::MaybeUninit<"@ == "("@ + "____return_value____: *mut std::mem::MaybeUninit<"@,
{
    reveal_strlit("(____return_value____: *mut std::mem::MaybeUninit<");
    reveal_strlit("(");
    reveal_strlit("____return_value____: *mut std::mem::MaybeUninit<");
    assert("(____return_value____: *mut std::mem::MaybeUninit<"@ =~= "("@ + "____return_value____: *mut std::mem::MaybeUninit<"@);
}

proof fn lemma_module_export_symbol(t: FnText)
    ensures
        exists|p: Seq<char>, q: Seq<char>|
            piece_text(Piece::ModuleExport, t) == p + r#"extern "C" fn "#@ + t.mangled_name + "("@ + q,
        exists|p: Seq<char>, q: Seq<char>|
            piece_text(Piece::ModuleExportCatching, t) == p + r#"extern "C" fn "#@ + t.mangled_name + "("@ + q,
{
    let p3 = "#[unsafe(no_mangle)]\npub "@ + unsafety_text(t.is_unsafe);
    let q3 = t.inputs + ") "@ + t.output + " {\n<ModuleExportsImpl as Exports>::"@ + t.ident + "("@
        + t.inputs_without_types + ")\n}\n"@;
    assert(piece_text(Piece::ModuleExport, t) =~= p3 + r#"extern "C" fn "#@ + t.mangled_name + "("@ + q3);
    let q4 = "____return_value____: *mut std::mem::MaybeUninit<"@ + t.return_type + ">, "@ + t.inputs
        + ") -> bool {\nlet result = std::panic::catch_unwind(move || {\n<ModuleExportsImpl as Exports>::"@
        + t.ident + "("@ + t.inputs_without_types + ")\n});\n"@ + catching_tail();
    lemma_catching_prefix();
    assert(piece_text(Piece::ModuleExportCatching, t) =~= p3 + r#"extern "C" fn "#@ + t.mangled_name + "("@ + q4);
}

#[verifier::rlimit(40)]
proof fn lemma_module_import_symbol(t: FnText)
    ensures
        exists|p: Seq<char>, q: Seq<char>|
            piece_text(Piece::ModuleImport, t) == p + "static mut "@ + t.mangled_name + ": "@ + q,
{
    let p5 = "pub "@ + unsafety_text(t.is_unsafe) + "fn "@ + t.ident + "("@ + t.inputs + ") "@ + t.output
        + " {\n#[allow(non_upper_case_globals)]\n#[unsafe(no_mangle)]\n"@;
    let q5 = unsafety_text(t.is_unsafe) + r#"extern "C" fn("#@ + t.inputs + ") "@ + t.output + " = placeholder;\n"@
        + unsafety_text(t.is_unsafe) + r#"extern "C" fn placeholder("#@ + t.placeholder_inputs + ") "@ + t.output
        + " {\nunreachable!();\n}\nunsafe {\n"@ + t.mangled_name + "("@ + t.inputs_without_types + ")\n}\n}\n"@;
    reveal_strlit(" {\n#[allow(non_upper_case_globals)]\n#[unsafe(no_mangle)]\nstatic mut ");
    reveal_strlit(" {\n#[allow(non_upper_case_globals)]\n#[unsafe(no_mangle)]\n");
    reveal_strlit("static mut ");
    assert(piece_text(Piece::ModuleImport, t) =~= p5 + "static mut "@ + t.mangled_name + ": "@ + q5);
}

/// The host looks each function up under exactly the symbol the module
/// defines for it: the host's lookup of an export and the module's exported
/// function, and the host's installation of an import and the module's
/// symbol for it, all name `__{trait}_{function}`.
pub proof fn law_host_and_module_agree_on_symbols(trait_name: Seq<char>, sig: crate::codegen::TraitFnSig)
    ensures
        ({
            let t = crate::codegen::sig_text(trait_name, sig);
            let m = crate::codegen::mangled_name_text(trait_name, sig.ident@);
            let lookup = r#"*library.get(concat!(""#@ + m;
            &&& exists|p: Seq<char>, q: Seq<char>| piece_text(Piece::HostExportInit, t) == p + lookup + q
            &&& exists|p: Seq<char>, q: Seq<char>| piece_text(Piece::HostImportInstall, t) == p + lookup + q
            &&& exists|p: Seq<char>, q: Seq<char>|
                piece_text(Piece::ModuleExport, t) == p + r#"extern "C" fn "#@ + m + "("@ + q
            &&& exists|p: Seq<char>, q: Seq<char>|
                piece_text(Piece::ModuleExportCatching, t) == p + r#"extern "C" fn "#@ + m + "("@ + q
            &&& exists|p: Seq<char>, q: Seq<char>|
                piece_text(Piece::ModuleImport, t) == p + "static mut "@ + m + ": "@ + q
        }),
{
    let t = crate::codegen::sig_text(trait_name, sig);
    lemma_host_export_lookup(t);
    let m = t.mangled_name;
    let p1 = t.ident + ": "@;
    let q1 = r#"", "\0").as_bytes()).expect("Failed to get \""#@ + t.ident
            + r#"\" fn symbol from module (mangled name: \""#@ + t.mangled_name + r#"\")"),"#@ + "\n"@;
    assert(piece_text(Piece::HostExportInit, t) == p1 + (r#"*library.get(concat!(""#@ + m) + q1);
    lemma_host_import_lookup(t);
    lemma_module_export_symbol(t);
    lemma_module_import_symbol(t);
}

} // verus!
