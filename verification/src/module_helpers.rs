//! Decisions a module makes about its own state.
use vstd::prelude::*;
use vstd::string::{StringExecFns, StringSliceAdditionalSpecFns};
use crate::ffi_types::Str;
use crate::module_alloc::{Allocator, appended};
use crate::shared::AllocatorOp;

verus! {

/// A fatal error in a module: the message as it is handed to the host,
/// which reports it and aborts.
pub fn unrecoverable(message: &str) -> (r: Str)
    ensures
        r@ == message.spec_bytes(),
{
    Str::new(message)
}

/// Explanation given when a module allocates while it is being unloaded.
pub open spec fn allocator_locked_message() -> Seq<char> {
    "module allocator was invoked while module was in the process of unloading\nnote: before unloading the module, make sure that all threads are joined if any were spawned by it\nnote: you can register \"before_unload\" callback for it"@
}

/// Once unloading has locked the module's allocator, only the thread that
/// loaded the module (and now runs its thread-local destructors) may still
/// allocate; any other thread's allocation is a fatal error, explained by
/// the returned message.
pub fn assert_allocator_is_still_accessible(allocator_locked: bool, on_host_owner_thread: bool) -> (r: Result<(), String>)
    ensures
        r is Err <==> (allocator_locked && !on_host_owner_thread),
        r matches Err(m) ==> m@ == allocator_locked_message(),
{
    if allocator_locked && !on_host_owner_thread {
        Err(
            String::from_str(
                "module allocator was invoked while module was in the process of unloading\nnote: before unloading the module, make sure that all threads are joined if any were spawned by it\nnote: you can register \"before_unload\" callback for it",
            ),
        )
    } else {
        Ok(())
    }
}

/// The module's implementation of the functions the host calls.
pub struct ModuleExportsImpl;

impl ModuleExportsImpl {
    /// Prepares the module's allocator when the host initialises the module;
    /// as `Allocator::init`, only the unchanged contents are stated.
    pub fn init(allocator: &mut Allocator)
        ensures
            final(allocator)@ == old(allocator)@,
    {
        allocator.init();
    }

    /// Before the module is unloaded, everything its allocator cached is
    /// moved to the transport buffer for the host.
    pub fn take_cached_allocs_before_exit(allocator: &mut Allocator)
        requires
            old(allocator).wf(),
        ensures
            final(allocator).wf(),
            final(allocator)@ == Map::<usize, AllocatorOp>::empty(),
            appended(old(allocator).pending(), final(allocator).pending(), old(allocator)@),
    {
        allocator.send_cached_allocs();
    }
}

} // verus!
