use std::cell::Cell;
use std::rc::Rc;

use lib::exec::funnel::infra::arena::Arena;
use lib::exec::funnel::infra::cont_arena::ContArena;
use lib::exec::funnel::infra::deque::WorkerDeque;
use lib::exec::funnel::infra::segmented_slab::{offset_of, segment_of, SegmentedSlab};
use lib::exec::funnel::infra::steal_queue::segment::{SegmentTable, SEGMENT_SIZE};
use lib::exec::funnel::infra::steal_queue::slot::{Slot, AVAILABLE, EMPTY, STOLEN};
use lib::exec::funnel::cps::cont::RootCell;

// ── Arena ─────────────────────────────────────────────

#[test]
fn arena_basic_alloc_and_get() {
    let mut arena = Arena::new();
    let i0 = arena.allocate(42);
    let i1 = arena.allocate(99);
    assert_eq!(*arena.get(i0), 42);
    assert_eq!(*arena.get(i1), 99);
}

#[test]
fn grows_beyond_initial_segment() {
    let mut arena = Arena::new();
    let mut indices = Vec::new();
    // 256 elements = 4 segments
    for i in 0..256u32 {
        indices.push(arena.allocate(i));
    }
    for (i, &idx) in indices.iter().enumerate() {
        assert_eq!(*arena.get(idx), i as u32);
    }
}

// `allocate` takes `&mut self`, so no reference into the arena can be held
// while it grows; what stays stable is the index, which still reads the value.
#[test]
fn stable_references_across_growth() {
    let mut arena = Arena::new();
    let i0 = arena.allocate(42u64);
    for i in 1..200 {
        arena.allocate(i);
    }
    assert_eq!(*arena.get(i0), 42);
}

struct Dropper(Rc<Cell<usize>>);

impl Drop for Dropper {
    fn drop(&mut self) {
        self.0.set(self.0.get() + 1);
    }
}

#[test]
fn drop_runs() {
    let count = Rc::new(Cell::new(0usize));
    {
        let mut arena = Arena::new();
        arena.allocate(Dropper(count.clone()));
        arena.allocate(Dropper(count.clone()));
        arena.allocate(Dropper(count.clone()));
    }
    assert_eq!(count.get(), 3);
}

#[test]
fn cont_arena_take_moves_each_value_out() {
    let mut arena = ContArena::new();
    let a = arena.allocate(String::from("parent"));
    let b = arena.allocate(String::from("grandparent"));
    assert_eq!(a.0, 0);
    assert_eq!(b.0, 1);
    assert_eq!(arena.take(b), "grandparent");
    assert_eq!(arena.take(a), "parent");
}

// ── SegmentedSlab ─────────────────────────────────────

#[test]
fn segmented_slab_basic_alloc_and_get() {
    let mut slab = SegmentedSlab::new();
    let i0 = slab.allocate(42);
    let i1 = slab.allocate(99);
    assert_eq!(*slab.get_ref(i0), 42);
    assert_eq!(*slab.get_ref(i1), 99);
}

#[test]
fn alloc_and_take() {
    let mut slab = SegmentedSlab::new();
    let i0 = slab.allocate(String::from("hello"));
    let i1 = slab.allocate(String::from("world"));
    assert_eq!(slab.take(i0), "hello");
    assert_eq!(slab.take(i1), "world");
}

#[test]
fn cross_segment_alloc() {
    let mut slab = SegmentedSlab::new();
    let mut indices = Vec::new();
    // Allocate across 4 segments (256 elements)
    for i in 0..256u32 {
        indices.push(slab.allocate(i));
    }
    for (i, &idx) in indices.iter().enumerate() {
        assert_eq!(*slab.get_ref(idx), i as u32);
    }
}

#[test]
fn drop_values() {
    let count = Rc::new(Cell::new(0usize));
    let mut slab = SegmentedSlab::new();
    slab.allocate(Dropper(count.clone()));
    slab.allocate(Dropper(count.clone()));
    slab.allocate(Dropper(count.clone()));
    slab.drop_allocated_values();
    slab.drop_segments();
    assert_eq!(count.get(), 3);
}

// As for the arena: `allocate` takes `&mut self`, so the index, not a held
// reference, is what stays valid across allocations.
#[test]
fn stable_references_across_alloc() {
    let mut slab = SegmentedSlab::new();
    let i0 = slab.allocate(42u64);
    for i in 1..200 {
        slab.allocate(i);
    }
    assert_eq!(*slab.get_ref(i0), 42);
}

#[test]
fn slab_indices_are_sequential() {
    let mut slab = SegmentedSlab::new();
    for i in 0..130u32 {
        assert_eq!(slab.allocate(i), i);
    }
}

#[test]
fn index_decomposition() {
    assert_eq!(segment_of(0), 0);
    assert_eq!(offset_of(0), 0);
    assert_eq!(segment_of(63), 0);
    assert_eq!(offset_of(63), 63);
    assert_eq!(segment_of(64), 1);
    assert_eq!(offset_of(64), 0);
    assert_eq!(segment_of(200), 3);
    assert_eq!(offset_of(200), 8);
}

// ── WorkerDeque ───────────────────────────────────────

#[test]
fn push_pop_lifo() {
    let mut d = WorkerDeque::new(8);
    assert!(d.push(1).is_ok());
    assert!(d.push(2).is_ok());
    assert!(d.push(3).is_ok());
    assert_eq!(d.pop(), Some(3));
    assert_eq!(d.pop(), Some(2));
    assert_eq!(d.pop(), Some(1));
    assert_eq!(d.pop(), None);
}

#[test]
fn steal_fifo() {
    let mut d = WorkerDeque::new(8);
    d.push(1).unwrap();
    d.push(2).unwrap();
    d.push(3).unwrap();
    assert_eq!(d.steal(), Some(1));
    assert_eq!(d.steal(), Some(2));
    assert_eq!(d.steal(), Some(3));
    assert_eq!(d.steal(), None);
}

#[test]
fn push_full() {
    let mut d = WorkerDeque::new(4);
    assert!(d.push(1).is_ok());
    assert!(d.push(2).is_ok());
    assert!(d.push(3).is_ok());
    assert!(d.push(4).is_ok());
    assert_eq!(d.push(5), Err(5));
}

#[test]
fn capacity_rounds_up_to_a_power_of_two() {
    // capacity 3 holds 4 items; capacity 0 holds 2
    let mut d = WorkerDeque::new(3);
    for i in 0..4 {
        assert!(d.push(i).is_ok());
    }
    assert_eq!(d.push(4), Err(4));
    let mut e = WorkerDeque::new(0);
    assert!(e.push(1).is_ok());
    assert!(e.push(2).is_ok());
    assert_eq!(e.push(3), Err(3));
}

#[test]
fn pop_and_steal_share_the_last_item() {
    let mut d = WorkerDeque::new(8);
    d.push(42).unwrap();
    assert_eq!(d.steal(), Some(42));
    assert_eq!(d.pop(), None);
    d.push(7).unwrap();
    assert_eq!(d.pop(), Some(7));
    assert_eq!(d.steal(), None);
}

#[test]
fn ring_wraps_around() {
    let mut d = WorkerDeque::new(2);
    for i in 0..10 {
        d.push(i).unwrap();
        d.push(i + 100).unwrap();
        assert_eq!(d.steal(), Some(i));
        assert_eq!(d.pop(), Some(i + 100));
    }
    assert_eq!(d.pop(), None);
}

// ── Steal-queue segments ──────────────────────────────

#[test]
fn basic_get_slot() {
    let mut table = SegmentTable::<i32>::new();
    let slot = table.get_slot(0);
    assert_eq!(slot.state(), EMPTY);
    slot.write(42);
    assert_eq!(slot.state(), AVAILABLE);
    assert!(slot.try_steal());
    assert_eq!(slot.state(), STOLEN);
    assert_eq!(slot.read(), 42);
}

#[test]
fn cross_segment_access() {
    let mut table = SegmentTable::<i32>::new();
    for i in 0..200u64 {
        let slot = table.get_slot(i);
        slot.write(i as i32);
    }
    for i in 0..200u64 {
        let slot = table.get_slot(i);
        assert!(slot.try_steal());
        assert_eq!(slot.read(), i as i32);
    }
}

#[test]
fn segment_reuse() {
    let mut table = SegmentTable::<i32>::new();
    // Positions 0 and 1 share a segment but are different slots.
    table.get_slot(0).write(7);
    assert_ne!(table.get_slot(1).state(), table.get_slot(0).state());
    // Position SEGMENT_SIZE lies in a different segment.
    assert_ne!(table.get_slot(SEGMENT_SIZE as u64).state(), table.get_slot(0).state());
}

#[test]
fn slot_steals_once() {
    let mut slot: Slot<i32> = Slot::new();
    assert!(!slot.try_steal());
    slot.write(5);
    assert!(slot.try_steal());
    assert!(!slot.try_steal());
    assert_eq!(slot.read(), 5);
}

// ── RootCell ──────────────────────────────────────────

#[test]
fn root_cell_set_then_take() {
    let mut cell = RootCell::new();
    assert!(!cell.is_done());
    cell.set(17);
    assert!(cell.is_done());
    assert_eq!(cell.take(), 17);
}
