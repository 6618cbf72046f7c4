//! The module's side of allocation tracking: allocator events are kept in a
//! cache keyed by address and handed to the host in batches.
use std::collections::HashMap;
use vstd::prelude::*;
use vstd::std_specs::iter::IteratorSpec;
use crate::shared::{
    AllocatorOp, AllocatorPtr, Allocation, StableLayout, op_key, ops_keyed_by_address,
    seq_lists_map,
};

verus! {

broadcast use vstd::std_specs::hash::group_hash_axioms;

/// Number of cached events at which the cache is handed to the host.
pub const CACHE_SIZE: usize = 20_000;

/// Events not yet reported to the host: the last one for each address.
pub struct AllocsCache {
    ops: HashMap<usize, AllocatorOp>,
}

impl View for AllocsCache {
    type V = Map<usize, AllocatorOp>;

    closed spec fn view(&self) -> Map<usize, AllocatorOp> {
        self.ops@
    }
}

impl AllocsCache {
    /// Each event sits under the address it concerns, and the cache is
    /// always below the size at which it is flushed.
    pub open spec fn wf(&self) -> bool {
        &&& ops_keyed_by_address(self@)
        &&& self@.len() < CACHE_SIZE
        &&& self@.dom().finite()
    }

    /// An empty cache.
    pub fn new() -> (r: Self)
        ensures
            r.wf(),
            r@ == Map::<usize, AllocatorOp>::empty(),
    {
        AllocsCache { ops: HashMap::new() }
    }

    /// Number of addresses with a cached event.
    pub fn len(&self) -> (r: usize)
        requires
            self.wf(),
        ensures
            r == self@.len(),
    {
        self.ops.len()
    }

    /// Makes room for a full cache up front, so that filling it does not
    /// allocate. The contract states only that the contents are unchanged:
    /// the room reserved is the map's capacity, which the map's model leaves
    /// out.
    pub fn reserve(&mut self)
        ensures
            final(self)@ == old(self)@,
    {
        self.ops.reserve(CACHE_SIZE);
    }

    /// Appends every cached event to `into`, each once and in no particular
    /// order, and leaves the cache empty.
    pub fn drain_into(&mut self, into: &mut Vec<AllocatorOp>)
        requires
            ops_keyed_by_address(old(self)@),
        ensures
            final(self).wf(),
            final(self)@ == Map::<usize, AllocatorOp>::empty(),
            final(into)@.len() >= old(into)@.len(),
            final(into)@.subrange(0, old(into)@.len() as int) == old(into)@,
            seq_lists_map(final(into)@.subrange(old(into)@.len() as int, final(into)@.len() as int), old(self)@),
    {
        let ghost start = into@;
        let ghost m = self.ops@;
        let ghost s = vstd::std_specs::hash::spec_hash_map_iter(&self.ops).remaining();
        for entry in it: self.ops.iter()
            invariant
                it.seq() == s,
                m == self.ops@,
                ops_keyed_by_address(m),
                it.seq().len() == m.len(),
                it.seq().no_duplicates(),
                forall|i: int| 0 <= i < it.seq().len() ==> #[trigger] m.contains_key(*it.seq()[i].0)
                    && m[*it.seq()[i].0] == *it.seq()[i].1,
                forall|k: usize| #[trigger] m.contains_key(k) ==> it.seq().contains((&k, &m[k])),
                into@.len() == start.len() + it.index(),
                into@.subrange(0, start.len() as int) == start,
                forall|i: int| 0 <= i < it.index() ==> into@[start.len() + i] == *it.seq()[i].1,
        {
            into.push(*entry.1);
            assert(into@.subrange(0, start.len() as int) =~= start);
        }
        let ghost batch = into@.subrange(start.len() as int, into@.len() as int);
        proof {
            assert forall|i: int| 0 <= i < batch.len() implies #[trigger] m.contains_key(
                op_key(batch[i]),
            ) && m[op_key(batch[i])] == batch[i] by {
                assert(batch[i] == into@[start.len() + i]);
                assert(m.contains_key(*s[i].0));
            }
            assert forall|k: usize| #[trigger] m.contains_key(k) implies exists|i: int|
                0 <= i < batch.len() && op_key(#[trigger] batch[i]) == k by {
                assert(s.contains((&k, &m[k])));
                let i = choose|i: int| 0 <= i < s.len() && s[i] == (&k, &m[k]);
                assert(batch[i] == into@[start.len() + i]);
                assert(op_key(batch[i]) == k);
            }
            assert forall|i: int, j: int|
                0 <= i < batch.len() && 0 <= j < batch.len() && i != j implies op_key(
                #[trigger] batch[i],
            ) != op_key(#[trigger] batch[j]) by {
                assert(batch[i] == into@[start.len() + i]);
                assert(batch[j] == into@[start.len() + j]);
                assert(m.contains_key(*s[i].0));
                assert(m.contains_key(*s[j].0));
                if op_key(batch[i]) == op_key(batch[j]) {
                    assert(s[i] == s[j]);
                }
            }
        }
        self.ops.clear();
    }

    /// Caches an event over any earlier one for the same address. When the
    /// cache reaches `CACHE_SIZE` addresses, all of it is appended to
    /// `transport` for the host, the cache starts over empty, and `true` is
    /// returned.
    pub fn push(&mut self, op: AllocatorOp, transport: &mut Vec<AllocatorOp>) -> (flushed: bool)
        requires
            old(self).wf(),
        ensures
            final(self).wf(),
            ({
                let cached = old(self)@.insert(op_key(op), op);
                if cached.len() == CACHE_SIZE {
                    &&& flushed
                    &&& appended(old(transport)@, final(transport)@, cached)
                    &&& final(self)@ == Map::<usize, AllocatorOp>::empty()
                } else {
                    &&& !flushed
                    &&& final(transport)@ == old(transport)@
                    &&& final(self)@ == cached
                }
            }),
    {
        let key = match op {
            AllocatorOp::Alloc(a) => a.0.0,
            AllocatorOp::Dealloc(a) => a.0.0,
        };
        self.ops.insert(key, op);
        proof {
            if old(self)@.contains_key(key) {
                assert(self@.dom() =~= old(self)@.dom());
            } else {
                assert(self@.dom() =~= old(self)@.dom().insert(key));
            }
        }
        if self.ops.len() == CACHE_SIZE {
            self.drain_into(transport);
            true
        } else {
            false
        }
    }
}

/// `after` is `before` followed by every event of the cache `c`, each once,
/// in some order.
pub open spec fn appended(before: Seq<AllocatorOp>, after: Seq<AllocatorOp>, c: Map<usize, AllocatorOp>) -> bool {
    &&& after.len() >= before.len()
    &&& after.subrange(0, before.len() as int) == before
    &&& seq_lists_map(after.subrange(before.len() as int, after.len() as int), c)
}

/// The allocation bookkeeping of one module: the cache of events not yet
/// reported, and the buffer a batch is handed to the host in.
pub struct Allocator {
    cache: AllocsCache,
    transport: Vec<AllocatorOp>,
}

impl View for Allocator {
    type V = Map<usize, AllocatorOp>;

    closed spec fn view(&self) -> Map<usize, AllocatorOp> {
        self.cache@
    }
}

impl Allocator {
    pub open spec fn wf(&self) -> bool {
        &&& ops_keyed_by_address(self@)
        &&& self@.len() < CACHE_SIZE
        &&& self@.dom().finite()
    }

    /// The batch waiting in the transport buffer.
    pub closed spec fn pending(&self) -> Seq<AllocatorOp> {
        self.transport@
    }

    /// A module allocator with nothing cached and nothing to send.
    pub fn new() -> (r: Self)
        ensures
            r.wf(),
            r@ == Map::<usize, AllocatorOp>::empty(),
            r.pending() == Seq::<AllocatorOp>::empty(),
    {
        Allocator { cache: AllocsCache::new(), transport: Vec::new() }
    }

    /// Prepares the cache and the transport buffer when the module is
    /// initialised, so that caching and flushing do not themselves allocate.
    /// The contract states only that contents are unchanged: the room
    /// reserved is capacity, which the models of the map and the vector
    /// leave out.
    pub fn init(&mut self)
        ensures
            final(self)@ == old(self)@,
            final(self).pending() == old(self).pending(),
    {
        self.cache.reserve();
        self.transport.reserve(CACHE_SIZE);
    }

    /// Records an allocation; when the cache fills up its events go to the
    /// transport buffer and `true` is returned: the batch must be sent.
    pub fn save_alloc_in_cache(&mut self, ptr: AllocatorPtr, layout: StableLayout) -> (flushed: bool)
        requires
            old(self).wf(),
        ensures
            final(self).wf(),
            ({
                let cached = old(self)@.insert(ptr.0, AllocatorOp::Alloc(Allocation(ptr, layout)));
                if cached.len() == CACHE_SIZE {
                    &&& flushed
                    &&& appended(old(self).pending(), final(self).pending(), cached)
                    &&& final(self)@ == Map::<usize, AllocatorOp>::empty()
                } else {
                    &&& !flushed
                    &&& final(self).pending() == old(self).pending()
                    &&& final(self)@ == cached
                }
            }),
    {
        self.cache.push(AllocatorOp::Alloc(Allocation(ptr, layout)), &mut self.transport)
    }

    /// Records a deallocation; when the cache fills up its events go to the
    /// transport buffer and `true` is returned: the batch must be sent.
    pub fn save_dealloc_in_cache(&mut self, ptr: AllocatorPtr, layout: StableLayout) -> (flushed: bool)
        requires
            old(self).wf(),
        ensures
            final(self).wf(),
            ({
                let cached = old(self)@.insert(ptr.0, AllocatorOp::Dealloc(Allocation(ptr, layout)));
                if cached.len() == CACHE_SIZE {
                    &&& flushed
                    &&& appended(old(self).pending(), final(self).pending(), cached)
                    &&& final(self)@ == Map::<usize, AllocatorOp>::empty()
                } else {
                    &&& !flushed
                    &&& final(self).pending() == old(self).pending()
                    &&& final(self)@ == cached
                }
            }),
    {
        self.cache.push(AllocatorOp::Dealloc(Allocation(ptr, layout)), &mut self.transport)
    }

    /// Moves everything cached to the transport buffer, for the host.
    pub fn send_cached_allocs(&mut self)
        requires
            old(self).wf(),
        ensures
            final(self).wf(),
            final(self)@ == Map::<usize, AllocatorOp>::empty(),
            appended(old(self).pending(), final(self).pending(), old(self)@),
    {
        self.cache.drain_into(&mut self.transport);
    }

    /// The batch to hand to the host.
    pub fn transport(&self) -> (r: &[AllocatorOp])
        ensures
            r@ == self.pending(),
    {
        self.transport.as_slice()
    }

    /// Empties the transport buffer once the host has the batch.
    pub fn clear_transport(&mut self)
        ensures
            final(self)@ == old(self)@,
            final(self).pending() == Seq::<AllocatorOp>::empty(),
    {
        self.transport.clear();
    }
}

} // verus!
