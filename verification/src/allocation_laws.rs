//! Properties of allocation tracking that span the module's cache and the
//! host's record.
use vstd::prelude::*;
use crate::host_allocs::lists_allocations;
use crate::shared::{
    AllocatorOp, Allocation, ModuleId, alloc_key, apply_op, apply_ops, last_ops,
    lemma_batch_replay, lemma_last_ops_replay, op_key, seq_lists_map,
};

verus! {

/// The events cached since the last hand-over form a finite map.
pub proof fn lemma_last_ops_finite(ops: Seq<AllocatorOp>)
    ensures
        last_ops(ops).dom().finite(),
    decreases ops.len(),
{
    if ops.len() > 0 {
        lemma_last_ops_finite(ops.drop_last());
    }
}

/// Caching one more event keeps the cache equal to the last event per
/// address of everything seen since the last hand-over.
pub proof fn law_cache_keeps_last_event(ops: Seq<AllocatorOp>, op: AllocatorOp)
    ensures
        last_ops(ops).insert(op_key(op), op) == last_ops(ops.push(op)),
{
    assert(ops.push(op).drop_last() =~= ops);
}

/// Once the host replays a batch that the module handed over (every cached
/// event once, in whatever order), the host's record of the module is what
/// replaying every allocator event since the last hand-over, in the order
/// they happened, would give.
pub proof fn law_batch_replays_events(
    host: Map<usize, Allocation>,
    events: Seq<AllocatorOp>,
    batch: Seq<AllocatorOp>,
)
    requires
        seq_lists_map(batch, last_ops(events)),
    ensures
        apply_ops(host, batch) == apply_ops(host, events),
{
    lemma_last_ops_finite(events);
    lemma_batch_replay(host, batch, last_ops(events));
    lemma_last_ops_replay(host, events);
}

/// Replaying two runs of events one after the other is replaying them
/// joined, so batches handed over in order add up.
pub proof fn law_replay_concat(
    host: Map<usize, Allocation>,
    first: Seq<AllocatorOp>,
    second: Seq<AllocatorOp>,
)
    ensures
        apply_ops(apply_ops(host, first), second) == apply_ops(host, first + second),
    decreases second.len(),
{
    if second.len() == 0 {
        assert(first + second =~= first);
    } else {
        law_replay_concat(host, first, second.drop_last());
        assert((first + second).drop_last() =~= first + second.drop_last());
        assert((first + second).last() == second.last());
    }
}

/// Recording an allocation at an address the module had nothing at, then
/// forgetting it again, leaves the host's record as it was.
pub proof fn law_alloc_then_dealloc_restores(
    record: Map<ModuleId, Map<usize, Allocation>>,
    module_id: ModuleId,
    allocation: Allocation,
)
    requires
        record.contains_key(module_id),
        !record[module_id].contains_key(alloc_key(allocation)),
    ensures
        ({
            let after_alloc = record.insert(
                module_id,
                record[module_id].insert(alloc_key(allocation), allocation),
            );
            after_alloc.insert(module_id, after_alloc[module_id].remove(alloc_key(allocation)))
                == record
        }),
        apply_op(
            apply_op(record[module_id], AllocatorOp::Alloc(allocation)),
            AllocatorOp::Dealloc(allocation),
        ) == record[module_id],
{
    let after_alloc = record.insert(
        module_id,
        record[module_id].insert(alloc_key(allocation), allocation),
    );
    assert(after_alloc[module_id].remove(alloc_key(allocation)) =~= record[module_id]);
    assert(after_alloc.insert(module_id, after_alloc[module_id].remove(alloc_key(allocation)))
        =~= record);
}

/// What one module reports never changes the record of another module.
pub proof fn law_modules_independent(
    record: Map<ModuleId, Map<usize, Allocation>>,
    module_id: ModuleId,
    other: ModuleId,
    ops: Seq<AllocatorOp>,
)
    requires
        record.contains_key(module_id),
        record.contains_key(other),
        other != module_id,
    ensures
        record.insert(module_id, apply_ops(record[module_id], ops))[other] == record[other],
        record.remove(module_id)[other] == record[other],
{
}

/// All events of several runs, one run after the other.
pub open spec fn joined_runs(runs: Seq<Seq<AllocatorOp>>) -> Seq<AllocatorOp>
    decreases runs.len(),
{
    if runs.len() == 0 {
        Seq::empty()
    } else {
        joined_runs(runs.drop_last()) + runs.last()
    }
}

/// The host replaying batches one after the other, in the order they came.
pub open spec fn replay_batches(host: Map<usize, Allocation>, batches: Seq<Seq<AllocatorOp>>) -> Map<
    usize,
    Allocation,
>
    decreases batches.len(),
{
    if batches.len() == 0 {
        host
    } else {
        apply_ops(replay_batches(host, batches.drop_last()), batches.last())
    }
}

/// However a module's allocator events are cut into batches by its cache
/// filling up or being flushed, once the host has replayed every batch in
/// order its record of the module is what replaying every event, in the
/// order they happened, gives.
pub proof fn law_host_record_follows_module_events(
    host: Map<usize, Allocation>,
    runs: Seq<Seq<AllocatorOp>>,
    batches: Seq<Seq<AllocatorOp>>,
)
    requires
        batches.len() == runs.len(),
        forall|i: int| 0 <= i < runs.len() ==> seq_lists_map(#[trigger] batches[i], last_ops(runs[i])),
    ensures
        replay_batches(host, batches) == apply_ops(host, joined_runs(runs)),
    decreases runs.len(),
{
    if runs.len() > 0 {
        let n = runs.len() - 1;
        law_host_record_follows_module_events(host, runs.drop_last(), batches.drop_last());
        assert(seq_lists_map(batches[n], last_ops(runs[n])));
        law_batch_replays_events(replay_batches(host, batches.drop_last()), runs[n], batches[n]);
        law_replay_concat(host, joined_runs(runs.drop_last()), runs[n]);
    }
}

/// The host's entry for a module, updated batch by batch as its registry
/// does, is the replay of the batches so far.
proof fn lemma_entry_is_replay(
    id: ModuleId,
    states: Seq<Map<ModuleId, Map<usize, Allocation>>>,
    batches: Seq<Seq<AllocatorOp>>,
    i: int,
)
    requires
        states.len() == batches.len() + 1,
        states[0].contains_key(id) && states[0][id] == Map::<usize, Allocation>::empty(),
        forall|j: int|
            0 <= j < batches.len() ==> #[trigger] states[j + 1].contains_key(id) && states[j + 1][id] == apply_ops(
                states[j][id],
                batches[j],
            ),
        0 <= i <= batches.len(),
    ensures
        states[i][id] == replay_batches(Map::empty(), batches.take(i)),
    decreases i,
{
    if i == 0 {
        assert(batches.take(0).len() == 0);
    } else {
        lemma_entry_is_replay(id, states, batches, i - 1);
        assert(batches.take(i).drop_last() =~= batches.take(i - 1));
        assert(states[(i - 1) + 1].contains_key(id));
        assert(states[i][id] == apply_ops(states[i - 1][id], batches[i - 1]));
    }
}

/// End to end: the allocations the host hands to a module's exit, when it
/// unloads the module, are exactly the blocks that the module's allocator
/// events, in the order they happened, leave unfreed; each is handed over
/// once. The host's registry starts the module with no allocations
/// (`add_module`), replays each batch the module's cache hands over in turn
/// (`on_cached_allocs`), whatever it does for other modules meanwhile, and
/// hands over what is left (`remove_module`).
pub proof fn law_exit_receives_unfreed_blocks(
    id: ModuleId,
    runs: Seq<Seq<AllocatorOp>>,
    batches: Seq<Seq<AllocatorOp>>,
    states: Seq<Map<ModuleId, Map<usize, Allocation>>>,
    leaked: Seq<Allocation>,
)
    requires
        batches.len() == runs.len(),
        forall|i: int| 0 <= i < runs.len() ==> seq_lists_map(#[trigger] batches[i], last_ops(runs[i])),
        states.len() == batches.len() + 1,
        states[0].contains_key(id) && states[0][id] == Map::<usize, Allocation>::empty(),
        forall|j: int|
            0 <= j < batches.len() ==> #[trigger] states[j + 1].contains_key(id) && states[j + 1][id] == apply_ops(
                states[j][id],
                batches[j],
            ),
        lists_allocations(leaked, states.last()[id]),
    ensures
        lists_allocations(leaked, apply_ops(Map::empty(), joined_runs(runs))),
{
    lemma_entry_is_replay(id, states, batches, batches.len() as int);
    assert(batches.take(batches.len() as int) =~= batches);
    law_host_record_follows_module_events(Map::empty(), runs, batches);
}

} // verus!
