//! Values that a module hands to the host.
use std::marker::PhantomData;
use std::mem::ManuallyDrop;
use vstd::prelude::*;

verus! {

/// A value owned by a module, usable no longer than the module is loaded.
/// It is never dropped by the host: unloading the module frees whatever
/// the module allocated.
pub struct ModuleValue<'module, T> {
    module: PhantomData<&'module ()>,
    value: ManuallyDrop<T>,
}

impl<'module, T> ModuleValue<'module, T> {
    /// The value held.
    pub closed spec fn value(&self) -> T {
        self.value@
    }

    /// Wraps a value returned by a module.
    pub fn new<'lt>(value: T) -> (r: ModuleValue<'lt, T>) where 'module: 'lt
        ensures
            r.value() == value,
    {
        ModuleValue { module: PhantomData, value: ManuallyDrop::new(value) }
    }

    /// The value held, by reference.
    pub fn get(&self) -> (r: &T)
        ensures
            *r == self.value(),
    {
        &*self.value
    }
}

} // verus!
