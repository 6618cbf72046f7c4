//! Whole generated files: the host's and the module's side of an interface
//! trait, built from the trait's source file.
use vstd::prelude::*;
use vstd::string::StringExecFns;
use crate::codegen::{
    CodegenError, FileItem, FnText, TraitFn, crate_name_of_path, extract_trait_name_from_path,
    first_item_error, first_separator_from, parse_file_text,
    fn_texts, format_code, formatted_rust, is_rust_path, join_texts, last_path_piece, parse_trait_file,
    parses_as_rust_path, trait_file_error,
    read_trait_file, trait_fns,
};
use crate::templates::{Piece, append_pieces, piece_fn};
use crate::syn_source::parsed_file_items;
use crate::plain_syntax::{is_plain_file, plain_file};

verus! {

/// Which generated file to write.
#[derive(Clone, Copy, PartialEq, Eq, Structural, Debug)]
pub enum FileKind {
    /// The host's handle on the functions a module exports.
    HostExports,
    /// The host's installation of the functions a module imports.
    HostImports,
    /// The module's exported symbols; with `catch_panics` each reports
    /// whether the call returned instead of unwinding into the host.
    ModuleExports { catch_panics: bool },
    /// The module's calls into the host.
    ModuleImports,
}

/// The unformatted text of a generated file, from the rewritten `use`
/// items, the trait's path and the text of each trait function.
pub open spec fn file_text(kind: FileKind, uses: Seq<char>, trait_path: Seq<char>, fs: Seq<FnText>) -> Seq<char> {
    match kind {
        FileKind::HostExports => uses + "pub struct ModuleExports {\n"@ + join_texts(
            fs,
            piece_fn(Piece::HostExportField),
        )
            + "}\nimpl ModuleExports {\npub unsafe fn new(library: &libloading::Library) -> Self {\nSelf {\n"@
            + join_texts(fs, piece_fn(Piece::HostExportInit)) + "}\n}\n"@ + join_texts(
            fs,
            piece_fn(Piece::HostExportMethod),
        ) + "}\n"@,
        FileKind::HostImports => uses + "use "@ + trait_path
            + " as Imports;\n/// Struct for implementing your `Imports` trait\npub struct ModuleImportsImpl;\npub fn init_imports(library: &libloading::Library) {\n"@
            + join_texts(fs, piece_fn(Piece::HostImportInstall)) + "}\n"@,
        FileKind::ModuleExports { catch_panics } => uses + "use "@ + trait_path
            + " as Exports;\n/// Struct for implementing your `Exports` trait\npub struct ModuleExportsImpl;\n"@
            + join_texts(
            fs,
            piece_fn(
                if catch_panics {
                    Piece::ModuleExportCatching
                } else {
                    Piece::ModuleExport
                },
            ),
        ),
        FileKind::ModuleImports => uses + join_texts(fs, piece_fn(Piece::ModuleImport)),
    }
}


/// Whether the trait path is itself written into the generated file.
pub open spec fn names_trait_path(kind: FileKind) -> bool {
    kind is HostImports || kind is ModuleExports
}

/// The unformatted source of the generated file for an interface trait at
/// `trait_path` declared in a file with `items`; or why there is none.
pub open spec fn file_source(kind: FileKind, trait_path: Seq<char>, items: Seq<FileItem>) -> Result<
    Seq<char>,
    CodegenError,
> {
    let name = last_path_piece(trait_path);
    match read_trait_file(name, trait_path, items) {
        Err(e) => Err(e),
        Ok((t, uses)) => if names_trait_path(kind) && !parses_as_rust_path(trait_path) {
            Err(CodegenError::InvalidTraitPath)
        } else {
            let trait_items = items[t]->Trait_0.items@;
            match first_item_error(trait_items) {
                Some(e) => Err(e),
                None => if !plain_file(trait_path, items, t) {
                    Err(CodegenError::UnsupportedSyntax)
                } else {
                    Ok(file_text(kind, uses, trait_path, fn_texts(name, trait_items)))
                },
            }
        },
    }
}

/// Source that the generators build: the unformatted text of a generated
/// file for some kind, trait path and interface file.
pub open spec fn generated_source(code: Seq<char>) -> bool {
    exists|kind: FileKind, trait_path: Seq<char>, items: Seq<FileItem>|
        #[trigger] file_source(kind, trait_path, items) == Ok::<Seq<char>, CodegenError>(code)
}

/// The lines every generated file starts with.
pub open spec fn file_header() -> Seq<char> {
    "// This file is generated, DO NOT edit manually\n// ---------------------------------------------\n\n"@
}

/// The generated file, laid out as Rust source after its header; or why
/// there is none.
pub open spec fn generated_file(kind: FileKind, trait_path: Seq<char>, items: Seq<FileItem>) -> Result<
    Seq<char>,
    CodegenError,
> {
    match file_source(kind, trait_path, items) {
        Err(e) => Err(e),
        Ok(source) => match formatted_rust(source) {
            Some(code) => Ok(file_header() + code),
            None => Err(CodegenError::Unformattable),
        },
    }
}

fn build_file_text(kind: FileKind, uses: &String, trait_path: &str, fs: &Vec<TraitFn>) -> (r: String)
    ensures
        r@ == file_text(kind, uses@, trait_path@, fs@.map_values(|f: TraitFn| f@)),
{
    let ghost texts = fs@.map_values(|f: TraitFn| f@);
    let mut t = String::from_str(uses.as_str());
    match kind {
        FileKind::HostExports => {
            t.append("pub struct ModuleExports {\n");
            append_pieces(&mut t, Piece::HostExportField, fs);
            t.append(
                "}\nimpl ModuleExports {\npub unsafe fn new(library: &libloading::Library) -> Self {\nSelf {\n",
            );
            append_pieces(&mut t, Piece::HostExportInit, fs);
            t.append("}\n}\n");
            append_pieces(&mut t, Piece::HostExportMethod, fs);
            t.append("}\n");
        },
        FileKind::HostImports => {
            t.append("use ");
            t.append(trait_path);
            t.append(
                " as Imports;\n/// Struct for implementing your `Imports` trait\npub struct ModuleImportsImpl;\npub fn init_imports(library: &libloading::Library) {\n",
            );
            append_pieces(&mut t, Piece::HostImportInstall, fs);
            t.append("}\n");
        },
        FileKind::ModuleExports { catch_panics } => {
            t.append("use ");
            t.append(trait_path);
            t.append(
                " as Exports;\n/// Struct for implementing your `Exports` trait\npub struct ModuleExportsImpl;\n",
            );
            if catch_panics {
                append_pieces(&mut t, Piece::ModuleExportCatching, fs);
            } else {
                append_pieces(&mut t, Piece::ModuleExport, fs);
            }
        },
        FileKind::ModuleImports => {
            append_pieces(&mut t, Piece::ModuleImport, fs);
        },
    }
    assert(t@ =~= file_text(kind, uses@, trait_path@, texts));
    t
}

/// The source of one generated file, before it is laid out, for the
/// interface trait at `trait_path` declared in a file with `items`.
pub fn generate_file_source(kind: FileKind, trait_path: &str, items: &Vec<FileItem>) -> (r: Result<String, CodegenError>)
    ensures
        match file_source(kind, trait_path@, items@) {
            Ok(code) => r matches Ok(s) && s@ == code,
            Err(e) => r == Err::<String, CodegenError>(e),
        },
        r matches Ok(s) ==> generated_source(s@),
{
    let trait_name = extract_trait_name_from_path(trait_path);
    match trait_file_error(trait_name, trait_path, items) {
        Some(e) => return Err(e),
        None => {},
    }
    let (t, uses) = parse_trait_file(trait_name, trait_path, items);
    let names_path = match kind {
        FileKind::HostImports => true,
        FileKind::ModuleExports { .. } => true,
        _ => false,
    };
    if names_path && !is_rust_path(trait_path) {
        return Err(CodegenError::InvalidTraitPath);
    }
    let trait_items = match &items[t] {
        FileItem::Trait(tr) => &tr.items,
        _ => return Err(CodegenError::ExpectedTrait),
    };
    let fs = match trait_fns(trait_name, trait_items) {
        Ok(fs) => fs,
        Err(e) => return Err(e),
    };
    if !is_plain_file(trait_path, items, t) {
        return Err(CodegenError::UnsupportedSyntax);
    }
    let text = build_file_text(kind, &uses, trait_path, &fs);
    assert(file_source(kind, trait_path@, items@) == Ok::<Seq<char>, CodegenError>(text@));
    Ok(text)
}

/// Generates and lays out one file for the interface trait at
/// `trait_path`, declared in a file with `items`.
pub fn generate_file(kind: FileKind, trait_path: &str, items: &Vec<FileItem>) -> (r: Result<String, CodegenError>)
    ensures
        match generated_file(kind, trait_path@, items@) {
            Ok(code) => r matches Ok(s) && s@ == code,
            Err(e) => r == Err::<String, CodegenError>(e),
        },
{
    match generate_file_source(kind, trait_path, items) {
        Ok(source) => match format_code(source.as_str()) {
            Ok(code) => {
                let mut file = String::from_str(
                    "// This file is generated, DO NOT edit manually\n// ---------------------------------------------\n\n",
                );
                file.append(code.as_str());
                Ok(file)
            },
            Err(e) => Err(e),
        },
        Err(e) => Err(e),
    }
}

/// The generated file for the interface trait at `trait_path`, declared in
/// the source `text`; or why there is none. The trait path is checked
/// before the text is parsed.
pub open spec fn generated_file_from_text(kind: FileKind, trait_path: Seq<char>, text: Seq<char>) -> Result<
    Seq<char>,
    CodegenError,
> {
    match first_separator_from(trait_path, 0) {
        None => Err(CodegenError::NoCrateInTraitPath),
        Some(_) => match parsed_file_items(text) {
            None => Err(CodegenError::Unparsable),
            Some(items) => generated_file(kind, trait_path, items),
        },
    }
}

/// Generates and lays out one file for the interface trait at
/// `trait_path`, declared in the Rust source `text`.
pub fn generate_file_from_text(kind: FileKind, trait_path: &str, text: &str) -> (r: Result<String, CodegenError>)
    ensures
        match generated_file_from_text(kind, trait_path@, text@) {
            Ok(code) => r matches Ok(s) && s@ == code,
            Err(e) => r == Err::<String, CodegenError>(e),
        },
{
    if crate_name_of_path(trait_path).is_none() {
        return Err(CodegenError::NoCrateInTraitPath);
    }
    match parse_file_text(text) {
        Ok(items) => generate_file(kind, trait_path, &items),
        Err(e) => Err(e),
    }
}

} // verus!
