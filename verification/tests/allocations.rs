use relib::host_allocs::ModuleAllocs;
use relib::module_alloc::{Allocator, AllocsCache, CACHE_SIZE};
use relib::shared::{Allocation, AllocatorOp, AllocatorPtr, StableLayout};

fn layout(size: usize) -> StableLayout {
    StableLayout { size, align: 8 }
}

fn alloc_op(ptr: usize, size: usize) -> AllocatorOp {
    AllocatorOp::Alloc(Allocation(AllocatorPtr(ptr), layout(size)))
}

fn dealloc_op(ptr: usize, size: usize) -> AllocatorOp {
    AllocatorOp::Dealloc(Allocation(AllocatorPtr(ptr), layout(size)))
}

fn sorted(mut v: Vec<Allocation>) -> Vec<Allocation> {
    v.sort_by_key(|a| a.0 .0);
    v
}

fn key(op: &AllocatorOp) -> usize {
    match op {
        AllocatorOp::Alloc(a) | AllocatorOp::Dealloc(a) => a.0 .0,
    }
}

#[test]
fn host_tracks_allocations_per_module() {
    let mut allocs = ModuleAllocs::new();
    assert!(!allocs.contains_module(1));
    allocs.add_module(1);
    allocs.add_module(2);
    allocs.on_alloc(1, AllocatorPtr(0x10), layout(16));
    allocs.on_alloc(1, AllocatorPtr(0x20), layout(32));
    allocs.on_alloc(2, AllocatorPtr(0x10), layout(64));
    assert!(allocs.tracks(1, AllocatorPtr(0x10)));
    allocs.on_dealloc(1, AllocatorPtr(0x10), layout(16));
    assert!(!allocs.tracks(1, AllocatorPtr(0x10)));
    assert!(allocs.tracks(2, AllocatorPtr(0x10)));
    let leaked = sorted(allocs.remove_module(1));
    assert_eq!(leaked, vec![Allocation(AllocatorPtr(0x20), layout(32))]);
    assert!(!allocs.contains_module(1));
    assert!(allocs.contains_module(2));
}

#[test]
fn alloc_then_dealloc_leaves_nothing() {
    let mut allocs = ModuleAllocs::new();
    allocs.add_module(7);
    allocs.on_alloc(7, AllocatorPtr(0x100), layout(8));
    allocs.on_dealloc(7, AllocatorPtr(0x100), layout(8));
    assert_eq!(allocs.remove_module(7), vec![]);
}

#[test]
fn cached_ops_are_replayed_in_order() {
    let mut allocs = ModuleAllocs::new();
    allocs.add_module(3);
    allocs.on_alloc(3, AllocatorPtr(0x1), layout(1));
    let ops = vec![alloc_op(0x2, 2), dealloc_op(0x1, 1), dealloc_op(0x99, 4), alloc_op(0x3, 3), dealloc_op(0x3, 3), alloc_op(0x3, 5)];
    allocs.on_cached_allocs(3, &ops);
    let leaked = sorted(allocs.remove_module(3));
    assert_eq!(
        leaked,
        vec![Allocation(AllocatorPtr(0x2), layout(2)), Allocation(AllocatorPtr(0x3), layout(5))]
    );
}

#[test]
fn adding_a_module_again_starts_it_over() {
    let mut allocs = ModuleAllocs::new();
    allocs.add_module(4);
    allocs.on_alloc(4, AllocatorPtr(0x1), layout(1));
    allocs.add_module(4);
    assert!(!allocs.tracks(4, AllocatorPtr(0x1)));
}

#[test]
fn cache_keeps_last_event_per_address() {
    let mut cache = AllocsCache::new();
    let mut batch = Vec::new();
    assert!(!cache.push(alloc_op(0x10, 8), &mut batch));
    assert!(!cache.push(alloc_op(0x20, 8), &mut batch));
    assert!(!cache.push(dealloc_op(0x10, 8), &mut batch));
    assert_eq!(cache.len(), 2);
    assert!(batch.is_empty());
    cache.drain_into(&mut batch);
    batch.sort_by_key(key);
    assert_eq!(batch, vec![dealloc_op(0x10, 8), alloc_op(0x20, 8)]);
    assert_eq!(cache.len(), 0);
}

#[test]
fn cache_flushes_when_full() {
    let mut cache = AllocsCache::new();
    let mut batch = vec![alloc_op(0xdead, 1)];
    for p in 0..CACHE_SIZE - 1 {
        assert!(!cache.push(alloc_op(p, 1), &mut batch));
    }
    assert_eq!(cache.len(), CACHE_SIZE - 1);
    // an event for an address already cached does not grow the cache
    assert!(!cache.push(dealloc_op(0, 1), &mut batch));
    assert!(cache.push(alloc_op(CACHE_SIZE, 1), &mut batch));
    assert_eq!(batch.len(), CACHE_SIZE + 1);
    assert_eq!(batch[0], alloc_op(0xdead, 1));
    assert!(batch.contains(&dealloc_op(0, 1)));
    assert_eq!(cache.len(), 0);
}

#[test]
fn module_batch_replayed_by_host_matches_events() {
    let events = vec![alloc_op(0x1, 1), alloc_op(0x2, 2), dealloc_op(0x1, 1), alloc_op(0x1, 7), dealloc_op(0x2, 2), alloc_op(0x4, 4)];
    let mut module = Allocator::new();
    module.init();
    for e in &events {
        let flushed = match *e {
            AllocatorOp::Alloc(Allocation(p, l)) => module.save_alloc_in_cache(p, l),
            AllocatorOp::Dealloc(Allocation(p, l)) => module.save_dealloc_in_cache(p, l),
        };
        assert!(!flushed);
    }
    module.send_cached_allocs();
    let batch = module.transport().to_vec();
    assert_eq!(batch.len(), 3);
    module.clear_transport();
    assert!(module.transport().is_empty());

    let mut via_batch = ModuleAllocs::new();
    via_batch.add_module(1);
    via_batch.on_cached_allocs(1, &batch);

    let mut one_by_one = ModuleAllocs::new();
    one_by_one.add_module(1);
    one_by_one.on_cached_allocs(1, &events);

    assert_eq!(sorted(via_batch.remove_module(1)), sorted(one_by_one.remove_module(1)));
}

#[test]
fn several_batches_add_up_to_all_events() {
    let first = vec![alloc_op(0x1, 1), alloc_op(0x2, 2), dealloc_op(0x1, 1)];
    let second = vec![alloc_op(0x1, 3), dealloc_op(0x2, 2), alloc_op(0x5, 5)];
    let mut module = Allocator::new();
    let mut via_batches = ModuleAllocs::new();
    via_batches.add_module(9);
    for run in [&first, &second] {
        for e in run.iter() {
            match *e {
                AllocatorOp::Alloc(Allocation(p, l)) => assert!(!module.save_alloc_in_cache(p, l)),
                AllocatorOp::Dealloc(Allocation(p, l)) => assert!(!module.save_dealloc_in_cache(p, l)),
            }
        }
        module.send_cached_allocs();
        via_batches.on_cached_allocs(9, module.transport());
        module.clear_transport();
    }
    let mut all = first.clone();
    all.extend(second.iter().copied());
    let mut one_by_one = ModuleAllocs::new();
    one_by_one.add_module(9);
    one_by_one.on_cached_allocs(9, &all);
    let expected = vec![Allocation(AllocatorPtr(0x1), layout(3)), Allocation(AllocatorPtr(0x5), layout(5))];
    assert_eq!(sorted(via_batches.remove_module(9)), expected);
    assert_eq!(sorted(one_by_one.remove_module(9)), expected);
}

#[test]
fn allocation_description() {
    assert_eq!(Allocation(AllocatorPtr(0x7f3a00), layout(4096)).describe(), "(0x7f3a00, 4096)");
    assert_eq!(Allocation(AllocatorPtr(0), layout(0)).describe(), "(0x0, 0)");
    assert_eq!(relib::describe::decimal(usize::MAX), usize::MAX.to_string());
    assert_eq!(relib::describe::hex_address(255), "0xff");
}
