//! The host's record of every live allocation of every loaded module, kept
//! so that the host can free whatever a module leaked when it unloads it.
use std::collections::HashMap;
use vstd::prelude::*;
use vstd::std_specs::iter::IteratorSpec;
use crate::shared::{
    AllocatorOp, AllocatorPtr, Allocation, ModuleId, StableLayout, alloc_key, apply_op, apply_ops,
    keyed_by_address,
};

verus! {

broadcast use vstd::std_specs::hash::group_hash_axioms;

/// The sequence lists every allocation of the map exactly once, in some order.
pub open spec fn lists_allocations(s: Seq<Allocation>, m: Map<usize, Allocation>) -> bool {
    &&& s.len() == m.len()
    &&& forall|i: int| 0 <= i < s.len() ==> #[trigger] m.contains_key(alloc_key(s[i])) && m[alloc_key(s[i])] == s[i]
    &&& forall|k: usize| #[trigger] m.contains_key(k) ==> exists|i: int| 0 <= i < s.len() && alloc_key(#[trigger] s[i]) == k
    &&& forall|i: int, j: int|
        0 <= i < s.len() && 0 <= j < s.len() && i != j ==> alloc_key(#[trigger] s[i]) != alloc_key(#[trigger] s[j])
}

/// Live allocations of each loaded module, by module id and address.
pub struct ModuleAllocs {
    modules: HashMap<ModuleId, HashMap<usize, Allocation>>,
}

impl View for ModuleAllocs {
    type V = Map<ModuleId, Map<usize, Allocation>>;

    closed spec fn view(&self) -> Map<ModuleId, Map<usize, Allocation>> {
        Map::new(|id: ModuleId| self.modules@.contains_key(id), |id: ModuleId| self.modules@[id]@)
    }
}

impl ModuleAllocs {
    /// Every recorded allocation sits under its own address.
    pub open spec fn wf(&self) -> bool {
        forall|id: ModuleId| #[trigger] self@.contains_key(id) ==> keyed_by_address(self@[id])
    }

    /// A registry that tracks no module.
    pub fn new() -> (r: Self)
        ensures
            r.wf(),
            r@ == Map::<ModuleId, Map<usize, Allocation>>::empty(),
    {
        let r = ModuleAllocs { modules: HashMap::new() };
        assert(r@ =~= Map::<ModuleId, Map<usize, Allocation>>::empty());
        r
    }

    /// Whether the module is being tracked.
    pub fn contains_module(&self, module_id: ModuleId) -> (r: bool)
        ensures
            r == self@.contains_key(module_id),
    {
        self.modules.contains_key(&module_id)
    }

    /// Whether the module has a live allocation at the address.
    pub fn tracks(&self, module_id: ModuleId, ptr: AllocatorPtr) -> (r: bool)
        ensures
            r == (self@.contains_key(module_id) && self@[module_id].contains_key(ptr.0)),
    {
        match self.modules.get(&module_id) {
            Some(allocs) => allocs.contains_key(&ptr.0),
            None => false,
        }
    }

    /// Starts tracking a newly loaded module with no allocations; a module
    /// already tracked under that id starts over empty.
    pub fn add_module(&mut self, module_id: ModuleId)
        requires
            old(self).wf(),
        ensures
            final(self).wf(),
            final(self)@ == old(self)@.insert(module_id, Map::empty()),
    {
        self.modules.insert(module_id, HashMap::new());
        assert(self@ =~= old(self)@.insert(module_id, Map::empty()));
    }

    /// Records an allocation reported by a module as it happens.
    pub fn on_alloc(&mut self, module_id: ModuleId, ptr: AllocatorPtr, layout: StableLayout)
        requires
            old(self).wf(),
            old(self)@.contains_key(module_id),
        ensures
            final(self).wf(),
            final(self)@ == old(self)@.insert(
                module_id,
                old(self)@[module_id].insert(ptr.0, Allocation(ptr, layout)),
            ),
    {
        match self.modules.remove(&module_id) {
            Some(mut allocs) => {
                allocs.insert(ptr.0, Allocation(ptr, layout));
                self.modules.insert(module_id, allocs);
            },
            None => {},
        }
        assert(self@ =~= old(self)@.insert(
            module_id,
            old(self)@[module_id].insert(ptr.0, Allocation(ptr, layout)),
        ));
    }

    /// Forgets an allocation that a module reports as freed; the module
    /// must have it recorded.
    pub fn on_dealloc(&mut self, module_id: ModuleId, ptr: AllocatorPtr, layout: StableLayout)
        requires
            old(self).wf(),
            old(self)@.contains_key(module_id),
            old(self)@[module_id].contains_key(ptr.0),
        ensures
            final(self).wf(),
            final(self)@ == old(self)@.insert(module_id, old(self)@[module_id].remove(ptr.0)),
    {
        match self.modules.remove(&module_id) {
            Some(mut allocs) => {
                allocs.remove(&ptr.0);
                self.modules.insert(module_id, allocs);
            },
            None => {},
        }
        assert(self@ =~= old(self)@.insert(module_id, old(self)@[module_id].remove(ptr.0)));
    }

    /// Replays, in order, a batch of events that a module had cached:
    /// allocations are recorded, deallocations forget what was recorded
    /// at their address, if anything.
    pub fn on_cached_allocs(&mut self, module_id: ModuleId, ops: &[AllocatorOp])
        requires
            old(self).wf(),
            old(self)@.contains_key(module_id),
        ensures
            final(self).wf(),
            final(self)@ == old(self)@.insert(module_id, apply_ops(old(self)@[module_id], ops@)),
    {
        let ghost start = self@[module_id];
        match self.modules.remove(&module_id) {
            Some(mut allocs) => {
                let mut i: usize = 0;
                while i < ops.len()
                    invariant
                        0 <= i <= ops@.len(),
                        allocs@ == apply_ops(start, ops@.take(i as int)),
                        keyed_by_address(allocs@),
                    decreases ops@.len() - i,
                {
                    let op = ops[i];
                    proof {
                        assert(ops@.take(i as int + 1).drop_last() =~= ops@.take(i as int));
                    }
                    match op {
                        AllocatorOp::Alloc(allocation) => {
                            allocs.insert(allocation.0.0, allocation);
                        },
                        AllocatorOp::Dealloc(allocation) => {
                            allocs.remove(&allocation.0.0);
                        },
                    }
                    assert(allocs@ =~= apply_op(apply_ops(start, ops@.take(i as int)), op));
                    i = i + 1;
                }
                assert(ops@.take(ops@.len() as int) =~= ops@);
                self.modules.insert(module_id, allocs);
            },
            None => {},
        }
        assert(self@ =~= old(self)@.insert(module_id, apply_ops(old(self)@[module_id], ops@)));
    }

    /// Stops tracking a module that is being unloaded and hands back every
    /// allocation it still had, so that the host can free them.
    pub fn remove_module(&mut self, module_id: ModuleId) -> (leaked: Vec<Allocation>)
        requires
            old(self).wf(),
            old(self)@.contains_key(module_id),
        ensures
            final(self).wf(),
            final(self)@ == old(self)@.remove(module_id),
            lists_allocations(leaked@, old(self)@[module_id]),
    {
        let mut leaked: Vec<Allocation> = Vec::new();
        match self.modules.remove(&module_id) {
            Some(allocs) => {
                let ghost m = allocs@;
                let ghost s = vstd::std_specs::hash::spec_hash_map_iter(&allocs).remaining();
                for entry in it: allocs.iter()
                    invariant
                        it.seq() == s,
                        m == allocs@,
                        keyed_by_address(m),
                        it.seq().len() == m.len(),
                        it.seq().no_duplicates(),
                        forall|i: int| 0 <= i < it.seq().len() ==> #[trigger] m.contains_key(*it.seq()[i].0)
                            && m[*it.seq()[i].0] == *it.seq()[i].1,
                        forall|k: usize| #[trigger] m.contains_key(k) ==> it.seq().contains((&k, &m[k])),
                        leaked@.len() == it.index(),
                        forall|i: int| 0 <= i < it.index() ==> leaked@[i] == *it.seq()[i].1,
                {
                    leaked.push(*entry.1);
                }
                proof {
                    assert forall|i: int| 0 <= i < leaked@.len() implies #[trigger] m.contains_key(
                        alloc_key(leaked@[i]),
                    ) && m[alloc_key(leaked@[i])] == leaked@[i] by {
                        assert(m.contains_key(*s[i].0));
                    }
                    assert forall|k: usize| #[trigger] m.contains_key(k) implies exists|i: int|
                        0 <= i < leaked@.len() && alloc_key(#[trigger] leaked@[i]) == k by {
                        assert(s.contains((&k, &m[k])));
                        let i = choose|i: int| 0 <= i < s.len() && s[i] == (&k, &m[k]);
                        assert(alloc_key(leaked@[i]) == k);
                    }
                    assert forall|i: int, j: int|
                        0 <= i < leaked@.len() && 0 <= j < leaked@.len() && i != j implies alloc_key(
                        #[trigger] leaked@[i],
                    ) != alloc_key(#[trigger] leaked@[j]) by {
                        assert(m.contains_key(*s[i].0));
                        assert(m.contains_key(*s[j].0));
                        if alloc_key(leaked@[i]) == alloc_key(leaked@[j]) {
                            assert(s[i] == s[j]);
                        }
                    }
                }
            },
            None => {},
        }
        assert(self@ =~= old(self)@.remove(module_id));
        leaked
    }
}

} // verus!
