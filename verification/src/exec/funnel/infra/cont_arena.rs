//! `ContArena<T>`: a bump-allocated store of values that are each moved out
//! exactly once. Backed by a `SegmentedSlab`.
use vstd::prelude::*;
use crate::exec::funnel::infra::segmented_slab::{SegmentedSlab, SLAB_CAPACITY};

verus! {

/// Index into a `ContArena`.
#[derive(Clone, Copy)]
pub struct ContIdx(pub u32);

/// A bump-allocated store whose values are taken out: `allocate` writes a
/// value and returns its index, `take` moves it out and leaves the slot empty.
pub struct ContArena<T>(SegmentedSlab<T>);

impl<T> View for ContArena<T> {
    type V = Seq<Option<T>>;

    /// The slots handed out so far: `Some(v)` while `v` waits to be taken.
    closed spec fn view(&self) -> Seq<Option<T>> {
        self.0.view()
    }
}

impl<T> ContArena<T> {
    /// The layout invariant.
    pub closed spec fn wf(&self) -> bool {
        self.0.wf()
    }

    /// An empty arena.
    pub fn new() -> (res: Self)
        ensures
            res.wf(),
            res.view() == Seq::<Option<T>>::empty(),
    {
        ContArena(SegmentedSlab::new())
    }

    /// Stores `value` and returns its index: the next one in order.
    pub fn allocate(&mut self, value: T) -> (idx: ContIdx)
        requires
            old(self).wf(),
            old(self).view().len() < SLAB_CAPACITY,
        ensures
            final(self).wf(),
            idx.0 == old(self).view().len(),
            final(self).view() == old(self).view().push(Some(value)),
    {
        ContIdx(self.0.allocate(value))
    }

    /// Moves the value at `idx` out; the slot becomes empty.
    pub fn take(&mut self, idx: ContIdx) -> (v: T)
        requires
            old(self).wf(),
            idx.0 < old(self).view().len(),
            old(self).view()[idx.0 as int] is Some,
        ensures
            final(self).wf(),
            v == old(self).view()[idx.0 as int].unwrap(),
            final(self).view() == old(self).view().update(idx.0 as int, None),
    {
        self.0.take(idx.0)
    }
}

/// The value taken at the index that `allocate` returned is the value that
/// was allocated; the slot is then empty and the others are untouched.
pub proof fn allocate_then_take<T>(before: Seq<Option<T>>, value: T, idx: int, mid: Seq<Option<T>>, taken: T, after: Seq<Option<T>>)
    requires
        idx == before.len(),
        mid == before.push(Some(value)),
        taken == mid[idx].unwrap(),
        after == mid.update(idx, None),
    ensures
        taken == value,
        after == before.push(None),
{
    assert(after =~= before.push(None));
}

} // verus!
