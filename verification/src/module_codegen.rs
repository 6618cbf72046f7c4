//! Code generation for a module: its exported symbols and its calls into
//! the host.
use vstd::prelude::*;
use crate::codegen::CodegenError;
use crate::interface_files::{FileKind, generate_file_from_text, generated_file_from_text};

verus! {

/// The module's files: the exports file (whose exported symbols catch
/// panics when `catch_panics` holds) is generated first, and the imports
/// file only when the exports file could be, so that it can be written
/// before a refusal of the imports file stops the generation.
fn generate_module_files(
    catch_panics: bool,
    exports_text: &str,
    exports_trait_path: &str,
    imports_text: &str,
    imports_trait_path: &str,
) -> (r: (Result<String, CodegenError>, Result<String, CodegenError>))
    ensures
        match generated_file_from_text(FileKind::ModuleExports { catch_panics }, exports_trait_path@, exports_text@) {
            Err(e) => r.0 == Err::<String, CodegenError>(e),
            Ok(code) => r.0 matches Ok(s) && s@ == code,
        },
        r.0 is Ok ==> match generated_file_from_text(FileKind::ModuleImports, imports_trait_path@, imports_text@) {
            Err(e) => r.1 == Err::<String, CodegenError>(e),
            Ok(code) => r.1 matches Ok(s) && s@ == code,
        },
{
    let exports = generate_file_from_text(FileKind::ModuleExports { catch_panics }, exports_trait_path, exports_text);
    match exports {
        Ok(_) => {
            let imports = generate_file_from_text(FileKind::ModuleImports, imports_trait_path, imports_text);
            (exports, imports)
        },
        Err(e) => (Err(e), Err(e)),
    }
}

/// Generates a module's files, from the source texts of the files that
/// declare its exports and imports traits, for internal interfaces, whose exported
/// symbols call straight through.
pub fn generate(
    exports_text: &str,
    exports_trait_path: &str,
    imports_text: &str,
    imports_trait_path: &str,
) -> (r: (Result<String, CodegenError>, Result<String, CodegenError>))
    ensures
        match generated_file_from_text(FileKind::ModuleExports { catch_panics: false }, exports_trait_path@, exports_text@) {
            Err(e) => r.0 == Err::<String, CodegenError>(e),
            Ok(code) => r.0 matches Ok(s) && s@ == code,
        },
        r.0 is Ok ==> match generated_file_from_text(FileKind::ModuleImports, imports_trait_path@, imports_text@) {
            Err(e) => r.1 == Err::<String, CodegenError>(e),
            Ok(code) => r.1 matches Ok(s) && s@ == code,
        },
{
    generate_module_files(false, exports_text, exports_trait_path, imports_text, imports_trait_path)
}

/// Generates a module's files, from the source texts of the files that
/// declare its exports and imports traits, for its public interface, whose exported
/// symbols catch panics and report whether the call returned.
pub fn generate_pub(
    exports_text: &str,
    exports_trait_path: &str,
    imports_text: &str,
    imports_trait_path: &str,
) -> (r: (Result<String, CodegenError>, Result<String, CodegenError>))
    ensures
        match generated_file_from_text(FileKind::ModuleExports { catch_panics: true }, exports_trait_path@, exports_text@) {
            Err(e) => r.0 == Err::<String, CodegenError>(e),
            Ok(code) => r.0 matches Ok(s) && s@ == code,
        },
        r.0 is Ok ==> match generated_file_from_text(FileKind::ModuleImports, imports_trait_path@, imports_text@) {
            Err(e) => r.1 == Err::<String, CodegenError>(e),
            Ok(code) => r.1 matches Ok(s) && s@ == code,
        },
{
    generate_module_files(true, exports_text, exports_trait_path, imports_text, imports_trait_path)
}

} // verus!
