//! Code generation for the host: its handle on a module's exports and the
//! installation of the host's implementation of a module's imports.
use vstd::prelude::*;
use crate::codegen::CodegenError;
use crate::interface_files::{FileKind, generate_file_from_text, generated_file_from_text};

verus! {

/// Generates the host's two files from the source texts of the files that
/// declare the exports trait and the imports trait: first the exports file; the imports file only when the exports
/// file could be generated, so that it can be written before a refusal of
/// the imports file stops the generation.
pub fn generate(
    exports_text: &str,
    exports_trait_path: &str,
    imports_text: &str,
    imports_trait_path: &str,
) -> (r: (Result<String, CodegenError>, Result<String, CodegenError>))
    ensures
        match generated_file_from_text(FileKind::HostExports, exports_trait_path@, exports_text@) {
            Err(e) => r.0 == Err::<String, CodegenError>(e),
            Ok(code) => r.0 matches Ok(s) && s@ == code,
        },
        r.0 is Ok ==> match generated_file_from_text(FileKind::HostImports, imports_trait_path@, imports_text@) {
            Err(e) => r.1 == Err::<String, CodegenError>(e),
            Ok(code) => r.1 matches Ok(s) && s@ == code,
        },
{
    let exports = generate_file_from_text(FileKind::HostExports, exports_trait_path, exports_text);
    match exports {
        Ok(_) => {
            let imports = generate_file_from_text(FileKind::HostImports, imports_trait_path, imports_text);
            (exports, imports)
        },
        Err(e) => (Err(e), Err(e)),
    }
}

} // verus!
