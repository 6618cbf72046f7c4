//! Why loading or unloading a module fails.
use vstd::prelude::*;

verus! {

/// The error type of the `libloading` crate, carried through unchanged.
#[verifier::external_type_specification]
#[verifier::external_body]
pub struct ExLibloadingError(libloading::Error);

/// Why a module could not be loaded.
pub enum LoadError {
    /// Opening the library or finding a symbol in it failed.
    Libloading(libloading::Error),
    /// The module was compiled by another compiler than the host: what the
    /// module reports, then what the host expects.
    ModuleCompilationMismatch(String, String),
}

/// Why a module could not be unloaded; each names the library's path.
pub enum UnloadError {
    /// The module's `before_unload` export panicked.
    BeforeUnloadPanicked(String),
    /// Threads the module spawned are still running.
    ThreadsStillRunning(String),
    /// Closing the library failed.
    Libloading(libloading::Error),
    /// The library is still mapped after it was closed.
    UnloadingFail(String),
}

} // verus!
