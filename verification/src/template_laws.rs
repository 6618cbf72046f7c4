//! What the generated code promises for every trait function: each
//! signature it writes carries the function's own unsafety, parameters and
//! return type; the host's and the module's sides of one function have the
//! same function-pointer type; every call forwards all the parameters; and
//! every panic-catching export reports `true` exactly when the call
//! returned, after storing its value, and `false` when it panicked.
use vstd::prelude::*;
use crate::codegen::{
    TraitFnSig, inputs_text, inputs_without_types_text, placeholder_inputs_text, sig_text,
};
use crate::export_macro::{ExportedFn, export_text};
use crate::templates::{Piece, piece_text};

verus! {

/// `unsafe ` for an unsafe function, nothing for a safe one.
pub open spec fn unsafe_word(is_unsafe: bool) -> Seq<char> {
    if is_unsafe {
        "unsafe "@
    } else {
        Seq::empty()
    }
}

/// `-> T` for a declared return type `T`, nothing when none is declared.
pub open spec fn arrow_type(output: Option<String>) -> Seq<char> {
    match output {
        Some(ty) => "-> "@ + ty@,
        None => Seq::empty(),
    }
}

/// The type of the function pointer through which one side calls the
/// other for a trait function: `[unsafe ]extern "C" fn(params) [-> T]`.
pub open spec fn pointer_type(sig: TraitFnSig) -> Seq<char> {
    unsafe_word(sig.is_unsafe) + r#"extern "C" fn("#@ + inputs_text(sig.inputs@) + ") "@ + arrow_type(sig.output)
}

/// The symbol of a trait function: `__{trait}_{function}`.
pub open spec fn symbol_of(trait_name: Seq<char>, sig: TraitFnSig) -> Seq<char> {
    "__"@ + trait_name + "_"@ + sig.ident@
}

/// What a catching export does after the call: stores the value and
/// reports `true` when the call returned, reports `false` when it panicked.
pub open spec fn reports_return() -> Seq<char> {
    "match result {\nOk(value) => {\nunsafe {\n(*____return_value____).write(value);\n}\ntrue\n}\nErr(_) => { false }\n}\n}\n"@
}

/// A function marked for export becomes the symbol `__{function}` that
/// takes a slot for the return value and the function's own parameters,
/// runs the function's body with all its arguments inside `catch_unwind`,
/// and then stores the value and returns `true` when the call returned, or
/// returns `false` when it panicked.
pub proof fn law_export_reports_whether_it_returned(f: ExportedFn)
    ensures
        export_text(f) == r#"#[unsafe(export_name = ""#@ + "__"@ + f.ident@ + "\")]\n"@ + crate::export_macro::attrs_text(
            f.attrs@,
        ) + "extern \"C\" fn "@ + f.ident@ + "(____return_value____: *mut std::mem::MaybeUninit<"@ + (match f.output {
            Some(ty) => ty@,
            None => "()"@,
        }) + ">, "@ + inputs_text(f.inputs@) + ") -> bool {\nfn ___do_call___("@ + inputs_text(f.inputs@) + ") "@
            + arrow_type(f.output) + " "@ + f.block@ + "\nlet result = std::panic::catch_unwind(move || {\n___do_call___("@
            + inputs_without_types_text(f.inputs@) + ")\n});\n"@ + reports_return(),
{
    let rt = match f.output {
        Some(ty) => ty@,
        None => "()"@,
    };
    assert(crate::codegen::return_type_text(f.output) == rt);
    assert(crate::codegen::output_text(f.output) == arrow_type(f.output));
    assert(crate::export_macro::export_symbol(f.ident@) == "__"@ + f.ident@);
    assert(export_text(f) =~= r#"#[unsafe(export_name = ""#@ + "__"@ + f.ident@ + "\")]\n"@
        + crate::export_macro::attrs_text(f.attrs@) + "extern \"C\" fn "@ + f.ident@
        + "(____return_value____: *mut std::mem::MaybeUninit<"@ + rt + ">, "@ + inputs_text(f.inputs@)
        + ") -> bool {\nfn ___do_call___("@ + inputs_text(f.inputs@) + ") "@ + arrow_type(f.output) + " "@ + f.block@
        + "\nlet result = std::panic::catch_unwind(move || {\n___do_call___("@ + inputs_without_types_text(f.inputs@)
        + ")\n});\n"@ + reports_return());
}

/// A function's attributes are kept in order, each on a line of its own:
/// the attributes of two lists joined are those of the first followed by
/// those of the second.
pub proof fn law_export_keeps_attributes(a: Seq<String>, b: Seq<String>, x: String)
    ensures
        crate::export_macro::attrs_text(a + b) == crate::export_macro::attrs_text(a) + crate::export_macro::attrs_text(b),
        crate::export_macro::attrs_text(seq![x]) == x@ + "\n"@,
    decreases b.len(),
{
    assert(seq![x].drop_last() =~= Seq::<String>::empty());
    assert(seq![x].last() == x);
    assert(crate::export_macro::attrs_text(seq![x].drop_last()) == Seq::<char>::empty());
    assert(crate::export_macro::attrs_text(seq![x]) =~= x@ + "\n"@);
    if b.len() == 0 {
        assert(a + b =~= a);
        assert(crate::export_macro::attrs_text(a) + crate::export_macro::attrs_text(b) =~= crate::export_macro::attrs_text(a));
    } else {
        law_export_keeps_attributes(a, b.drop_last(), x);
        assert((a + b).drop_last() =~= a + b.drop_last());
        assert((a + b).last() == b.last());
        assert(crate::export_macro::attrs_text(a + b) =~= crate::export_macro::attrs_text(a)
            + crate::export_macro::attrs_text(b));
    }
}

/// A module's export of a trait function is the symbol
/// `__{trait}_{function}`, as unsafe as the function, with its parameters
/// and return type, and calls the implementation with all the parameters.
pub proof fn law_module_export_forwards_every_parameter(trait_name: Seq<char>, sig: TraitFnSig)
    ensures
        piece_text(Piece::ModuleExport, sig_text(trait_name, sig)) == "#[unsafe(no_mangle)]\npub "@ + unsafe_word(
            sig.is_unsafe,
        ) + r#"extern "C" fn "#@ + symbol_of(trait_name, sig) + "("@ + inputs_text(sig.inputs@) + ") "@ + arrow_type(
            sig.output,
        ) + " {\n<ModuleExportsImpl as Exports>::"@ + sig.ident@ + "("@ + inputs_without_types_text(sig.inputs@)
            + ")\n}\n"@,
{
    assert(crate::codegen::unsafety_text(sig.is_unsafe) == unsafe_word(sig.is_unsafe));
    assert(crate::codegen::output_text(sig.output) == arrow_type(sig.output));
    assert(crate::codegen::mangled_name_text(trait_name, sig.ident@) == symbol_of(trait_name, sig));
}

/// A module's panic-catching export of a trait function is the symbol
/// `__{trait}_{function}`, as unsafe as the function, taking a slot for the
/// return value (of the function's return type, `()` when none) and the
/// function's parameters; it calls the implementation with all the
/// parameters inside `catch_unwind`, then stores the value and returns
/// `true` when the call returned, or returns `false` when it panicked.
pub proof fn law_catching_export_reports_whether_it_returned(trait_name: Seq<char>, sig: TraitFnSig)
    ensures
        piece_text(Piece::ModuleExportCatching, sig_text(trait_name, sig)) == "#[unsafe(no_mangle)]\npub "@
            + unsafe_word(sig.is_unsafe) + r#"extern "C" fn "#@ + symbol_of(trait_name, sig)
            + "(____return_value____: *mut std::mem::MaybeUninit<"@ + (match sig.output {
            Some(ty) => ty@,
            None => "()"@,
        }) + ">, "@ + inputs_text(sig.inputs@)
            + ") -> bool {\nlet result = std::panic::catch_unwind(move || {\n<ModuleExportsImpl as Exports>::"@
            + sig.ident@ + "("@ + inputs_without_types_text(sig.inputs@) + ")\n});\n"@ + reports_return(),
{
    assert(crate::codegen::unsafety_text(sig.is_unsafe) == unsafe_word(sig.is_unsafe));
    assert(crate::codegen::mangled_name_text(trait_name, sig.ident@) == symbol_of(trait_name, sig));
    assert(crate::codegen::return_type_text(sig.output) == (match sig.output {
        Some(ty) => ty@,
        None => "()"@,
    }));
}

/// On the host's side of an exported trait function, the field holding the
/// module's function has the function's pointer type, and the method is as
/// unsafe as the function, takes its parameters and calls the field with
/// all of them.
pub proof fn law_host_exports_forward_every_parameter(trait_name: Seq<char>, sig: TraitFnSig)
    ensures
        piece_text(Piece::HostExportField, sig_text(trait_name, sig)) == sig.ident@ + ": "@ + pointer_type(sig)
            + ",\n"@,
        piece_text(Piece::HostExportMethod, sig_text(trait_name, sig)) == "pub "@ + unsafe_word(sig.is_unsafe)
            + "fn "@ + sig.ident@ + "(&self, "@ + inputs_text(sig.inputs@) + ") "@ + arrow_type(sig.output)
            + " {\n(self."@ + sig.ident@ + ")("@ + inputs_without_types_text(sig.inputs@) + ")\n}\n"@,
{
    let t = sig_text(trait_name, sig);
    assert(piece_text(Piece::HostExportField, t) =~= sig.ident@ + ": "@ + pointer_type(sig) + ",\n"@);
    assert(crate::codegen::unsafety_text(sig.is_unsafe) == unsafe_word(sig.is_unsafe));
    assert(crate::codegen::output_text(sig.output) == arrow_type(sig.output));
}

/// Both sides of an imported trait function agree on its function-pointer
/// type `[unsafe ]extern "C" fn(params) [-> T]`, which carries the
/// function's unsafety: the host writes its implementation through a
/// pointer of that type, found under the function's symbol, and the
/// implementation it installs has that very signature and calls the host's
/// trait implementation with all the parameters; the module's static, under
/// the same symbol, has that type and starts as a placeholder of the same
/// signature, and the module's function (as unsafe as the trait function)
/// calls through it with all the parameters.
pub proof fn law_imports_agree_on_pointer_type(trait_name: Seq<char>, sig: TraitFnSig)
    ensures
        ({
            let u = unsafe_word(sig.is_unsafe);
            let m = symbol_of(trait_name, sig);
            let out = arrow_type(sig.output);
            let inputs = inputs_text(sig.inputs@);
            &&& exists|p: Seq<char>|
                piece_text(Piece::HostImportInstall, sig_text(trait_name, sig)) == "unsafe {\nlet ptr: *mut "@ + u
                    + r#"extern "C" fn("#@ + inputs + ") "@ + out + " = "@ + (r#"*library.get(concat!(""#@ + m + p)
                    + r#"\" symbol of static function pointer from module");"#@ + "\n*ptr = impl_;\n"@ + u
                    + r#"extern "C" fn impl_("#@ + inputs + ") "@ + out + " {\n<ModuleImportsImpl as Imports>::"@
                    + sig.ident@ + "("@ + inputs_without_types_text(sig.inputs@) + ")\n}\n}\n"@
            &&& piece_text(Piece::ModuleImport, sig_text(trait_name, sig)) == "pub "@ + u + "fn "@ + sig.ident@ + "("@
                + inputs + ") "@ + out + " {\n#[allow(non_upper_case_globals)]\n#[unsafe(no_mangle)]\nstatic mut "@ + m
                + ": "@ + u + r#"extern "C" fn("#@ + inputs + ") "@ + out + " = placeholder;\n"@ + u
                + r#"extern "C" fn placeholder("#@ + placeholder_inputs_text(sig.inputs@) + ") "@ + out
                + " {\nunreachable!();\n}\nunsafe {\n"@ + m + "("@ + inputs_without_types_text(sig.inputs@)
                + ")\n}\n}\n"@
        }),
{
    let m = symbol_of(trait_name, sig);
    assert(crate::codegen::unsafety_text(sig.is_unsafe) == unsafe_word(sig.is_unsafe));
    assert(crate::codegen::output_text(sig.output) == arrow_type(sig.output));
    assert(crate::codegen::mangled_name_text(trait_name, sig.ident@) == m);
    let p = r#"", "\0").as_bytes()).expect("Failed to get \""#@ + m;
    assert(crate::templates::library_lookup(m, m) =~= r#"*library.get(concat!(""#@ + m + p);
}

} // verus!
