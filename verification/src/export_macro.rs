//! The code that marks a module's function as a public export: a symbol
//! named `__{function}` that runs the function, catches a panic, and tells
//! the host whether the call returned.
use vstd::prelude::*;
use vstd::string::StringExecFns;
use crate::codegen::{
    CodegenError, FnInput, inputs_text, inputs_without_types_text, output_text, return_type_text,
};
use crate::templates::catching_tail;
use crate::syn_source::{parse_item_fn, parsed_item_fn};

verus! {

/// A function written in a module and marked for export.
pub struct ExportedFn {
    /// Its attributes, each as source text, in order.
    pub attrs: Vec<String>,
    pub ident: String,
    /// The function takes `self` in some form.
    pub has_receiver: bool,
    pub inputs: Vec<FnInput>,
    /// The declared return type; `None` when it returns `()` implicitly.
    pub output: Option<String>,
    /// Its body, braces included, as source text.
    pub block: String,
}

/// The exported symbol of a function: `__{function}`.
pub open spec fn export_symbol(ident: Seq<char>) -> Seq<char> {
    "__"@ + ident
}

/// The attributes, each followed by a line break.
pub open spec fn attrs_text(attrs: Seq<String>) -> Seq<char>
    decreases attrs.len(),
{
    if attrs.len() == 0 {
        Seq::empty()
    } else {
        attrs_text(attrs.drop_last()) + attrs.last()@ + "\n"@
    }
}

/// The code that replaces a function marked for export.
pub open spec fn export_text(f: ExportedFn) -> Seq<char> {
    r#"#[unsafe(export_name = ""#@ + export_symbol(f.ident@) + "\")]\n"@ + attrs_text(f.attrs@)
        + "extern \"C\" fn "@ + f.ident@
        + "(____return_value____: *mut std::mem::MaybeUninit<"@ + return_type_text(f.output)
        + ">, "@ + inputs_text(f.inputs@) + ") -> bool {\nfn ___do_call___("@ + inputs_text(
        f.inputs@,
    ) + ") "@ + output_text(f.output) + " "@ + f.block@
        + "\nlet result = std::panic::catch_unwind(move || {\n___do_call___("@
        + inputs_without_types_text(f.inputs@) + ")\n});\n"@ + catching_tail()
}

/// Rewrites a function marked for export, which must not take `self`, into
/// its exported, panic-catching form.
pub fn define_module_export(f: &ExportedFn) -> (code: String)
    requires
        !f.has_receiver,
    ensures
        code@ == export_text(*f),
{
    let (inputs, without_types, _) = crate::codegen::render_inputs(&f.inputs);
    let mut t = String::from_str(r#"#[unsafe(export_name = ""#);
    t.append("__");
    t.append(f.ident.as_str());
    t.append("\")]\n");
    let ghost head = t@;
    let mut i: usize = 0;
    while i < f.attrs.len()
        invariant
            0 <= i <= f.attrs@.len(),
            t@ == head + attrs_text(f.attrs@.take(i as int)),
        decreases f.attrs@.len() - i,
    {
        proof {
            assert(f.attrs@.take(i as int + 1).drop_last() =~= f.attrs@.take(i as int));
        }
        t.append(f.attrs[i].as_str());
        t.append("\n");
        proof {
            assert(t@ =~= head + attrs_text(f.attrs@.take(i as int + 1)));
        }
        i = i + 1;
    }
    assert(f.attrs@.take(f.attrs@.len() as int) =~= f.attrs@);
    t.append("extern \"C\" fn ");
    t.append(f.ident.as_str());
    t.append("(____return_value____: *mut std::mem::MaybeUninit<");
    match &f.output {
        Some(ty) => t.append(ty.as_str()),
        None => t.append("()"),
    }
    t.append(">, ");
    t.append(inputs.as_str());
    t.append(") -> bool {\nfn ___do_call___(");
    t.append(inputs.as_str());
    t.append(") ");
    match &f.output {
        Some(ty) => {
            t.append("-> ");
            t.append(ty.as_str());
        },
        None => {},
    }
    t.append(" ");
    t.append(f.block.as_str());
    t.append("\nlet result = std::panic::catch_unwind(move || {\n___do_call___(");
    t.append(without_types.as_str());
    t.append(")\n});\n");
    t.append(
        "match result {\nOk(value) => {\nunsafe {\n(*____return_value____).write(value);\n}\ntrue\n}\nErr(_) => { false }\n}\n}\n",
    );
    assert(t@ =~= export_text(*f));
    t
}

/// The code that replaces the function item written in `text`; refused
/// when the text is not one function item, or when the function takes
/// `self`.
pub open spec fn export_from_text(text: Seq<char>) -> Result<Seq<char>, CodegenError> {
    match parsed_item_fn(text) {
        None => Err(CodegenError::Unparsable),
        Some(f) => if f.has_receiver {
            Err(CodegenError::HasReceiver)
        } else {
            Ok(export_text(f))
        },
    }
}

/// Reads the function item written in `tokens` and rewrites it into its
/// exported, panic-catching form.
pub fn define_module_export_text(tokens: &str) -> (r: Result<String, CodegenError>)
    ensures
        match export_from_text(tokens@) {
            Ok(code) => r matches Ok(s) && s@ == code,
            Err(e) => r == Err::<String, CodegenError>(e),
        },
{
    match parse_item_fn(tokens) {
        None => Err(CodegenError::Unparsable),
        Some(f) => if f.has_receiver {
            Err(CodegenError::HasReceiver)
        } else {
            Ok(define_module_export(&f))
        },
    }
}

} // verus!
