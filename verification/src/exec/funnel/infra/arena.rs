//! `Arena<T>`: a bump-allocated store of values that are read in place.
//! Backed by a `SegmentedSlab`; values live until the arena is dropped.
use vstd::prelude::*;
use crate::exec::funnel::infra::segmented_slab::{SegmentedSlab, SLAB_CAPACITY};

verus! {

/// Index into an `Arena`.
#[derive(Clone, Copy)]
pub struct ArenaIdx(pub(crate) u32);

impl ArenaIdx {
    /// The slot this index names.
    pub closed spec fn index(&self) -> u32 {
        self.0
    }
}

/// A bump-allocated store: `allocate` writes a value and returns its index,
/// `get` reads it back.
pub struct Arena<T>(SegmentedSlab<T>);

impl<T> View for Arena<T> {
    type V = Seq<T>;

    /// The values allocated so far, in order of allocation.
    closed spec fn view(&self) -> Seq<T> {
        self.0.view().map_values(|o: Option<T>| o.unwrap())
    }
}

impl<T> Arena<T> {
    /// The layout invariant: every allocated slot holds its value.
    pub closed spec fn wf(&self) -> bool {
        &&& self.0.wf()
        &&& forall|i: int| 0 <= i < self.0.view().len() ==> #[trigger] self.0.view()[i] is Some
    }

    /// An empty arena.
    pub fn new() -> (res: Self)
        ensures
            res.wf(),
            res.view() == Seq::<T>::empty(),
    {
        let res = Arena(SegmentedSlab::new());
        assert(res.view() =~= Seq::<T>::empty());
        res
    }

    /// Stores `value` and returns its index: the next one in order.
    pub fn allocate(&mut self, value: T) -> (idx: ArenaIdx)
        requires
            old(self).wf(),
            old(self).view().len() < SLAB_CAPACITY,
        ensures
            final(self).wf(),
            idx.index() == old(self).view().len(),
            final(self).view() == old(self).view().push(value),
    {
        let i = self.0.allocate(value);
        assert(self.view() =~= old(self).view().push(value));
        ArenaIdx(i)
    }

    /// The value stored at `idx`.
    pub fn get(&self, idx: ArenaIdx) -> (r: &T)
        requires
            self.wf(),
            idx.index() < self.view().len(),
        ensures
            *r == self.view()[idx.index() as int],
    {
        self.0.get_ref(idx.0)
    }
}

/// A value read at the index that `allocate` returned is the value that was
/// allocated, and every earlier value is still there.
pub proof fn allocate_then_get<T>(before: Seq<T>, value: T, idx: int, after: Seq<T>)
    requires
        idx == before.len(),
        after == before.push(value),
    ensures
        after[idx] == value,
        forall|i: int| 0 <= i < before.len() ==> after[i] == before[i],
{
}

} // verus!
