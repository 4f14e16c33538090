//! `Segment<T>` and `SegmentTable<T>`: positions map to slots across a chain
//! of fixed-size segments, allocated on first access.
use vstd::prelude::*;
use crate::exec::funnel::infra::steal_queue::slot::{Slot, EMPTY};

verus! {

/// Number of slots per segment.
pub const SEGMENT_SIZE: usize = 64;

/// Maximum number of segments.
pub const MAX_SEGMENTS: usize = 4096;

/// Number of positions: `SEGMENT_SIZE * MAX_SEGMENTS`.
pub const TABLE_CAPACITY: u64 = 262144;

/// A fixed-size array of slots.
pub struct Segment<T> {
    slots: Vec<Slot<T>>,
}

impl<T> View for Segment<T> {
    type V = Seq<Slot<T>>;

    /// The slots.
    closed spec fn view(&self) -> Seq<Slot<T>> {
        self.slots@
    }
}

impl<T> Segment<T> {
    /// A segment of empty slots.
    fn new() -> (res: Self)
        ensures
            res.view().len() == SEGMENT_SIZE,
            forall|i: int| 0 <= i < SEGMENT_SIZE ==> (#[trigger] res.view()[i]).state_of() == EMPTY
                && res.view()[i].value_of() is None,
    {
        let mut slots: Vec<Slot<T>> = Vec::new();
        let mut i: usize = 0;
        while i < SEGMENT_SIZE
            invariant
                i <= SEGMENT_SIZE,
                slots@.len() == i,
                forall|j: int| 0 <= j < i ==> (#[trigger] slots@[j]).state_of() == EMPTY && slots@[j].value_of() is None,
            decreases SEGMENT_SIZE - i,
        {
            slots.push(Slot::new());
            i += 1;
        }
        Segment { slots }
    }

    /// The slot at `index`.
    pub fn slot(&self, index: usize) -> (s: &Slot<T>)
        requires index < self.view().len(),
        ensures *s == self.view()[index as int],
    {
        &self.slots[index]
    }
}

/// Positions mapped to slots: position `pos` is slot `pos % SEGMENT_SIZE` of
/// segment `pos / SEGMENT_SIZE`. A position whose segment is not allocated yet
/// reads as an empty slot.
pub struct SegmentTable<T> {
    table: Vec<Option<Segment<T>>>,
}

impl<T> SegmentTable<T> {
    /// The state of the slot at `pos`.
    pub closed spec fn state_at(&self, pos: int) -> u8 {
        match self.table@[pos / 64] {
            Some(seg) => seg.view()[pos % 64].state_of(),
            None => EMPTY,
        }
    }

    /// The value held by the slot at `pos`.
    pub closed spec fn value_at(&self, pos: int) -> Option<T> {
        match self.table@[pos / 64] {
            Some(seg) => seg.view()[pos % 64].value_of(),
            None => None,
        }
    }

    /// The layout invariant.
    pub closed spec fn wf(&self) -> bool {
        &&& self.table@.len() == MAX_SEGMENTS
        &&& forall|s: int| 0 <= s < MAX_SEGMENTS && #[trigger] self.table@[s] is Some
            ==> self.table@[s].unwrap().view().len() == SEGMENT_SIZE
    }

    /// A table with no segment allocated: every position reads as empty.
    pub fn new() -> (res: Self)
        ensures
            res.wf(),
            forall|p: int| 0 <= p < TABLE_CAPACITY ==> #[trigger] res.state_at(p) == EMPTY && res.value_at(p) is None,
    {
        let mut table: Vec<Option<Segment<T>>> = Vec::new();
        let mut i: usize = 0;
        while i < MAX_SEGMENTS
            invariant
                i <= MAX_SEGMENTS,
                table@.len() == i,
                forall|s: int| 0 <= s < i ==> #[trigger] table@[s] is None,
            decreases MAX_SEGMENTS - i,
        {
            table.push(None);
            i += 1;
        }
        let res = SegmentTable { table };
        assert forall|p: int| 0 <= p < TABLE_CAPACITY implies #[trigger] res.state_at(p) == EMPTY && res.value_at(p) is None by {
            assert(res.table@[p / 64] is None);
        }
        res
    }

    /// The slot at position `pos`, allocating its segment if needed. Writing
    /// through the answer changes that position only.
    pub fn get_slot(&mut self, pos: u64) -> (slot: &mut Slot<T>)
        requires
            old(self).wf(),
            pos < TABLE_CAPACITY,
        ensures
            slot.state_of() == old(self).state_at(pos as int),
            slot.value_of() == old(self).value_at(pos as int),
            final(self).wf(),
            final(self).state_at(pos as int) == final(slot).state_of(),
            final(self).value_at(pos as int) == final(slot).value_of(),
            forall|p: int| 0 <= p < TABLE_CAPACITY && p != pos ==>
                #[trigger] final(self).state_at(p) == old(self).state_at(p) && final(self).value_at(p) == old(self).value_at(p),
    {
        let seg_idx = (pos / 64) as usize;
        let slot_idx = (pos % 64) as usize;
        if self.table[seg_idx].is_none() {
            self.table[seg_idx] = Some(Segment::new());
        }
        let seg = self.table[seg_idx].as_mut().unwrap();
        &mut seg.slots[slot_idx]
    }
}

} // verus!
