//! Bookkeeping and decisions of a framework that loads, runs and unloads
//! reloadable dynamic libraries ("modules") inside a host program.
pub mod shared;
pub mod host_allocs;
pub mod module_alloc;
pub mod allocation_laws;
pub mod host_helpers;
pub mod codegen;
pub mod syn_source;
pub mod plain_syntax;
pub mod symbol_laws;
pub mod template_laws;
pub mod file_laws;
pub mod templates;
pub mod interface_files;
pub mod host_codegen;
pub mod module_codegen;
pub mod export_macro;
pub mod errors;
pub mod unload;
pub mod host_load;
pub mod exports_types;
pub mod ffi_types;
pub mod module_helpers;
pub mod describe;
