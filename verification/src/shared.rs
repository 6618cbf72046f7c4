//! Types exchanged between a host and the modules it loads, and the
//! mathematical model of allocation bookkeeping that both sides share.
use vstd::prelude::*;

verus! {

/// Identifier the host gives to each loaded module.
pub type ModuleId = u64;

/// Address of a block handed out by a module's allocator.
#[derive(Clone, Copy, PartialEq, Eq, Structural, Hash, Debug)]
pub struct AllocatorPtr(pub usize);

/// Size and alignment of an allocation, in a layout both sides agree on.
#[derive(Clone, Copy, PartialEq, Eq, Structural, Debug)]
pub struct StableLayout {
    pub size: usize,
    pub align: usize,
}

/// One live allocation of a module: where it is and how it was requested.
#[derive(Clone, Copy, PartialEq, Eq, Structural, Debug)]
pub struct Allocation(pub AllocatorPtr, pub StableLayout);

/// An allocator event recorded by a module and replayed by the host.
#[derive(Clone, Copy, PartialEq, Eq, Structural, Debug)]
pub enum AllocatorOp {
    Alloc(Allocation),
    Dealloc(Allocation),
}

/// Address that an allocation is keyed by.
pub open spec fn alloc_key(a: Allocation) -> usize {
    a.0.0
}

/// Address that an allocator event concerns.
pub open spec fn op_key(op: AllocatorOp) -> usize {
    match op {
        AllocatorOp::Alloc(a) => a.0.0,
        AllocatorOp::Dealloc(a) => a.0.0,
    }
}

/// What one event does to the set of live allocations of a module:
/// an allocation is recorded under its address, a deallocation forgets
/// whatever was recorded there (and is harmless when nothing was).
pub open spec fn apply_op(m: Map<usize, Allocation>, op: AllocatorOp) -> Map<usize, Allocation> {
    match op {
        AllocatorOp::Alloc(a) => m.insert(a.0.0, a),
        AllocatorOp::Dealloc(a) => m.remove(a.0.0),
    }
}

/// Replaying events in order, first to last.
pub open spec fn apply_ops(m: Map<usize, Allocation>, ops: Seq<AllocatorOp>) -> Map<
    usize,
    Allocation,
>
    decreases ops.len(),
{
    if ops.len() == 0 {
        m
    } else {
        apply_op(apply_ops(m, ops.drop_last()), ops.last())
    }
}

/// The last event seen for each address, as a cache keyed by address keeps it.
pub open spec fn last_ops(ops: Seq<AllocatorOp>) -> Map<usize, AllocatorOp>
    decreases ops.len(),
{
    if ops.len() == 0 {
        Map::empty()
    } else {
        last_ops(ops.drop_last()).insert(op_key(ops.last()), ops.last())
    }
}

/// Applying, for every address independently, the one event kept for it.
pub open spec fn apply_last_ops(m: Map<usize, Allocation>, c: Map<usize, AllocatorOp>) -> Map<
    usize,
    Allocation,
> {
    Map::new(
        |k: usize|
            if c.contains_key(k) {
                c[k] is Alloc
            } else {
                m.contains_key(k)
            },
        |k: usize|
            if c.contains_key(k) {
                match c[k] {
                    AllocatorOp::Alloc(a) => a,
                    AllocatorOp::Dealloc(a) => a,
                }
            } else {
                m[k]
            },
    )
}

/// Every entry of a map of allocations is stored under its own address.
pub open spec fn keyed_by_address(m: Map<usize, Allocation>) -> bool {
    forall|k: usize| #[trigger] m.contains_key(k) ==> alloc_key(m[k]) == k
}

/// Every entry of a map of events is stored under the address it concerns.
pub open spec fn ops_keyed_by_address(c: Map<usize, AllocatorOp>) -> bool {
    forall|k: usize| #[trigger] c.contains_key(k) ==> op_key(c[k]) == k
}

/// No two events of the sequence concern the same address.
pub open spec fn distinct_keys(ops: Seq<AllocatorOp>) -> bool {
    forall|i: int, j: int|
        0 <= i < ops.len() && 0 <= j < ops.len() && i != j ==> op_key(#[trigger] ops[i]) != op_key(
            #[trigger] ops[j],
        )
}

/// The sequence holds exactly the entries of the map, each once, in some order.
pub open spec fn seq_lists_map(ops: Seq<AllocatorOp>, c: Map<usize, AllocatorOp>) -> bool {
    &&& distinct_keys(ops)
    &&& ops.len() == c.len()
    &&& forall|i: int| 0 <= i < ops.len() ==> #[trigger] c.contains_key(op_key(ops[i])) && c[op_key(ops[i])] == ops[i]
    &&& forall|k: usize| #[trigger] c.contains_key(k) ==> exists|i: int| 0 <= i < ops.len() && op_key(#[trigger] ops[i]) == k
}

/// A cache keyed by address holds the last event for each address,
/// so replaying the cache has the same effect as replaying every event.
pub proof fn lemma_last_ops_replay(m: Map<usize, Allocation>, ops: Seq<AllocatorOp>)
    ensures
        apply_last_ops(m, last_ops(ops)) == apply_ops(m, ops),
        ops_keyed_by_address(last_ops(ops)),
    decreases ops.len(),
{
    if ops.len() > 0 {
        lemma_last_ops_replay(m, ops.drop_last());
        assert(apply_last_ops(m, last_ops(ops)) =~= apply_ops(m, ops));
    } else {
        assert(apply_last_ops(m, last_ops(ops)) =~= apply_ops(m, ops));
    }
}

/// Replaying, in any order, a batch that lists each cached event once has
/// the same effect as applying the cache address by address.
pub proof fn lemma_batch_replay(m: Map<usize, Allocation>, ops: Seq<AllocatorOp>, c: Map<usize, AllocatorOp>)
    requires
        seq_lists_map(ops, c),
        c.dom().finite(),
    ensures
        apply_ops(m, ops) == apply_last_ops(m, c),
    decreases ops.len(),
{
    if ops.len() == 0 {
        assert(c.dom() =~= Set::empty()) by {
            if exists|k: usize| c.contains_key(k) {
                let k = choose|k: usize| c.contains_key(k);
                assert(c.dom().contains(k));
                vstd::set_lib::lemma_set_empty_equivalency_len(c.dom());
            }
        }
        assert(apply_ops(m, ops) =~= apply_last_ops(m, c));
    } else {
        let x = ops.last();
        let rest = ops.drop_last();
        let n = ops.len() - 1;
        let c2 = c.remove(op_key(x));
        assert(c.contains_key(op_key(ops[n])));
        assert forall|i: int| 0 <= i < rest.len() implies #[trigger] c2.contains_key(op_key(rest[i]))
            && c2[op_key(rest[i])] == rest[i] by {
            assert(rest[i] == ops[i]);
            assert(op_key(ops[i]) != op_key(ops[n]));
        }
        assert forall|k: usize| #[trigger] c2.contains_key(k) implies exists|i: int|
            0 <= i < rest.len() && op_key(#[trigger] rest[i]) == k by {
            assert(c.contains_key(k));
            let i = choose|i: int| 0 <= i < ops.len() && op_key(#[trigger] ops[i]) == k;
            assert(i != n);
            assert(rest[i] == ops[i]);
        }
        assert(distinct_keys(rest)) by {
            assert forall|i: int, j: int|
                0 <= i < rest.len() && 0 <= j < rest.len() && i != j implies op_key(#[trigger] rest[i])
                != op_key(#[trigger] rest[j]) by {
                assert(rest[i] == ops[i] && rest[j] == ops[j]);
            }
        }
        lemma_batch_replay(m, rest, c2);
        assert(apply_ops(m, ops) =~= apply_last_ops(m, c));
    }
}

} // verus!
