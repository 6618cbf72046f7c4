//! Checks the host makes while loading a module, and the host's side of
//! the functions a module imports.
use vstd::prelude::*;
use vstd::string::StringExecFns;
use crate::errors::LoadError;
use crate::host_allocs::ModuleAllocs;
use crate::host_helpers::unrecoverable;
use crate::shared::{AllocatorOp, AllocatorPtr, Allocation, ModuleId, StableLayout, apply_ops};

verus! {

/// A module may only be loaded when it was compiled with exactly the
/// compiler the host was compiled with; otherwise both descriptions are
/// reported.
pub fn check_compilation_info(compiled_with: String, expected: &str) -> (r: Result<(), LoadError>)
    ensures
        compiled_with@ == expected@ ==> r is Ok,
        compiled_with@ != expected@ ==> (r matches Err(LoadError::ModuleCompilationMismatch(
            module,
            host,
        )) && module@ == compiled_with@ && host@ == expected@),
{
    let expected_owned = String::from_str(expected);
    if compiled_with == expected_owned {
        Ok(())
    } else {
        Err(LoadError::ModuleCompilationMismatch(compiled_with, expected_owned))
    }
}

/// The host's implementation of the functions every module imports.
pub struct ModuleImportsImpl;

impl ModuleImportsImpl {
    /// A module reports an allocation as it happens.
    pub fn on_alloc(allocs: &mut ModuleAllocs, module: ModuleId, ptr: AllocatorPtr, layout: StableLayout)
        requires
            old(allocs).wf(),
            old(allocs)@.contains_key(module),
        ensures
            final(allocs).wf(),
            final(allocs)@ == old(allocs)@.insert(
                module,
                old(allocs)@[module].insert(ptr.0, Allocation(ptr, layout)),
            ),
    {
        allocs.on_alloc(module, ptr, layout);
    }

    /// A module reports a deallocation as it happens.
    pub fn on_dealloc(allocs: &mut ModuleAllocs, module: ModuleId, ptr: AllocatorPtr, layout: StableLayout)
        requires
            old(allocs).wf(),
            old(allocs)@.contains_key(module),
            old(allocs)@[module].contains_key(ptr.0),
        ensures
            final(allocs).wf(),
            final(allocs)@ == old(allocs)@.insert(module, old(allocs)@[module].remove(ptr.0)),
    {
        allocs.on_dealloc(module, ptr, layout);
    }

    /// A module hands over the events it had cached.
    pub fn on_cached_allocs(allocs: &mut ModuleAllocs, module: ModuleId, ops: &[AllocatorOp])
        requires
            old(allocs).wf(),
            old(allocs)@.contains_key(module),
        ensures
            final(allocs).wf(),
            final(allocs)@ == old(allocs)@.insert(module, apply_ops(old(allocs)@[module], ops@)),
    {
        allocs.on_cached_allocs(module, ops);
    }

    /// A module hit a fatal error: the text the host reports before it
    /// aborts.
    pub fn unrecoverable(message: &str) -> (text: String)
        ensures
            text@ == "something unrecoverable happened: "@ + message@ + " (from module)"@,
    {
        let mut m = String::from_str(message);
        m.append(" (from module)");
        unrecoverable(m.as_str())
    }
}

} // verus!
