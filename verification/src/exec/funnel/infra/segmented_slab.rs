//! `SegmentedSlab<T>`: a growable bump allocator over lazily allocated
//! segments of `SEGMENT_SIZE` slots. An index names a segment (its high
//! bits) and a slot in it (its low bits).
use vstd::prelude::*;

verus! {

/// Bits of an index that name the slot within its segment.
pub const SEGMENT_BITS: u32 = 6;

/// Slots per segment.
pub const SEGMENT_SIZE: usize = 64;

/// Mask of the slot bits of an index.
pub const SEGMENT_MASK: u32 = 63;

/// Number of segments.
pub const MAX_SEGMENTS: usize = 4096;

/// Number of slots: `SEGMENT_SIZE * MAX_SEGMENTS`.
pub const SLAB_CAPACITY: u32 = 262144;

/// The segment that index `idx` falls in.
pub fn segment_of(idx: u32) -> (s: usize)
    ensures s == idx / 64,
{
    assert(idx >> 6u32 == idx / 64) by (bit_vector);
    (idx >> SEGMENT_BITS) as usize
}

/// The slot of index `idx` within its segment.
pub fn offset_of(idx: u32) -> (o: usize)
    ensures o == idx % 64,
{
    assert(idx & 63u32 == idx % 64) by (bit_vector);
    (idx & SEGMENT_MASK) as usize
}

/// Two positions in the same segment at the same offset are the same.
proof fn lemma_same_slot(a: int, b: int)
    requires
        a / 64 == b / 64,
        a % 64 == b % 64,
    ensures
        a == b,
{
    vstd::arithmetic::div_mod::lemma_fundamental_div_mod(a, 64);
    vstd::arithmetic::div_mod::lemma_fundamental_div_mod(b, 64);
}

struct SlabSegment<T> {
    slots: Vec<Option<T>>,
}

/// A bump allocator whose values stay in place: `alloc` writes into the next
/// slot, allocating its segment on first use.
pub struct SegmentedSlab<T> {
    segments: Vec<Option<SlabSegment<T>>>,
    next: u32,
}

impl<T> View for SegmentedSlab<T> {
    type V = Seq<Option<T>>;

    /// The slots handed out so far, in order: `Some(v)` where a value is held,
    /// `None` where it was taken or dropped.
    closed spec fn view(&self) -> Seq<Option<T>> {
        Seq::new(self.next as nat, |i: int| self.slot_at(i))
    }
}

impl<T> SegmentedSlab<T> {
    /// What the slot at position `i` holds (`None` where no segment is allocated).
    pub closed spec fn slot_at(&self, i: int) -> Option<T> {
        match self.segments@[i / 64] {
            Some(seg) => seg.slots@[i % 64],
            None => None,
        }
    }

    /// Which segments are allocated.
    pub closed spec fn allocated(&self) -> Seq<bool> {
        Seq::new(self.segments@.len(), |s: int| self.segments@[s] is Some)
    }

    /// The layout invariant.
    pub closed spec fn wf(&self) -> bool {
        &&& self.segments@.len() == MAX_SEGMENTS
        &&& self.next <= SLAB_CAPACITY
        &&& forall|s: int| 0 <= s < self.segments@.len() && #[trigger] self.segments@[s] is Some
            ==> self.segments@[s].unwrap().slots@.len() == SEGMENT_SIZE
    }

    /// An empty slab with no segment allocated.
    pub fn new() -> (res: Self)
        ensures
            res.wf(),
            res.view() == Seq::<Option<T>>::empty(),
            res.allocated() == Seq::new(MAX_SEGMENTS as nat, |s: int| false),
    {
        let mut segments: Vec<Option<SlabSegment<T>>> = Vec::new();
        let mut i: usize = 0;
        while i < MAX_SEGMENTS
            invariant
                i <= MAX_SEGMENTS,
                segments@.len() == i,
                forall|s: int| 0 <= s < i ==> #[trigger] segments@[s] is None,
            decreases MAX_SEGMENTS - i,
        {
            segments.push(None);
            i += 1;
        }
        let res = SegmentedSlab { segments, next: 0 };
        assert(res.view() == Seq::<Option<T>>::empty());
        assert(res.allocated() == Seq::new(MAX_SEGMENTS as nat, |s: int| false));
        res
    }

    /// Allocates segment `seg_idx` if it is not allocated yet.
    fn ensure_segment(&mut self, seg_idx: usize)
        requires
            old(self).wf(),
            seg_idx < MAX_SEGMENTS,
        ensures
            final(self).wf(),
            final(self).view() == old(self).view(),
            final(self).segments@[seg_idx as int] is Some,
            final(self).next == old(self).next,
            final(self).allocated() == old(self).allocated().update(seg_idx as int, true),
    {
        if self.segments[seg_idx].is_none() {
            let mut slots: Vec<Option<T>> = Vec::new();
            let mut i: usize = 0;
            while i < SEGMENT_SIZE
                invariant
                    i <= SEGMENT_SIZE,
                    slots@.len() == i,
                    forall|j: int| 0 <= j < i ==> #[trigger] slots@[j] is None,
                decreases SEGMENT_SIZE - i,
            {
                slots.push(None);
                i += 1;
            }
            let ghost before = *self;
            self.segments[seg_idx] = Some(SlabSegment { slots });
            assert forall|k: int| 0 <= k < self.next implies #[trigger] self.slot_at(k) == before.slot_at(k) by {
                if k / 64 == seg_idx {
                    assert(before.segments@[k / 64] is None);
                }
            }
            assert(self.view() == before.view());
        }
        assert(self.allocated() == old(self).allocated().update(seg_idx as int, true));
    }

    /// Writes `value` into slot `idx` of an allocated segment.
    fn write(&mut self, idx: u32, value: T)
        requires
            old(self).wf(),
            idx < SLAB_CAPACITY,
            old(self).segments@[(idx / 64) as int] is Some,
        ensures
            final(self).wf(),
            final(self).next == old(self).next,
            final(self).allocated() == old(self).allocated(),
            forall|k: int| 0 <= k < SLAB_CAPACITY && k != idx ==> #[trigger] final(self).slot_at(k) == old(self).slot_at(k),
            final(self).slot_at(idx as int) == Some(value),
    {
        let s = segment_of(idx);
        let o = offset_of(idx);
        let seg_opt = self.segments[s].take();
        let mut seg = seg_opt.unwrap();
        seg.slots[o] = Some(value);
        self.segments[s] = Some(seg);
        assert(self.allocated() == old(self).allocated());
        assert forall|k: int| 0 <= k < SLAB_CAPACITY && k != idx implies #[trigger] self.slot_at(k) == old(self).slot_at(k) by {
            if k / 64 == idx / 64 && k % 64 == idx % 64 {
                lemma_same_slot(k, idx as int);
            }
        }
    }

    /// Takes the value out of slot `idx`, leaving it empty.
    fn take_slot(&mut self, idx: u32) -> (v: Option<T>)
        requires
            old(self).wf(),
            idx < SLAB_CAPACITY,
        ensures
            final(self).wf(),
            final(self).next == old(self).next,
            final(self).allocated() == old(self).allocated(),
            forall|k: int| 0 <= k < SLAB_CAPACITY && k != idx ==> #[trigger] final(self).slot_at(k) == old(self).slot_at(k),
            final(self).slot_at(idx as int) is None,
            v == old(self).slot_at(idx as int),
    {
        let s = segment_of(idx);
        let o = offset_of(idx);
        if self.segments[s].is_none() {
            return None;
        }
        let seg_opt = self.segments[s].take();
        let mut seg = seg_opt.unwrap();
        let v = seg.slots[o].take();
        self.segments[s] = Some(seg);
        assert(self.allocated() == old(self).allocated());
        assert forall|k: int| 0 <= k < SLAB_CAPACITY && k != idx implies #[trigger] self.slot_at(k) == old(self).slot_at(k) by {
            if k / 64 == idx / 64 && k % 64 == idx % 64 {
                lemma_same_slot(k, idx as int);
            }
        }
        v
    }

    /// Bump-allocates `value` into the next slot and returns its index.
    pub fn allocate(&mut self, value: T) -> (idx: u32)
        requires
            old(self).wf(),
            old(self).view().len() < SLAB_CAPACITY,
        ensures
            final(self).wf(),
            idx == old(self).view().len(),
            final(self).view() == old(self).view().push(Some(value)),
    {
        let idx = self.next;
        let seg_idx = segment_of(idx);
        self.ensure_segment(seg_idx);
        let ghost mid = *self;
        self.write(idx, value);
        let ghost written = *self;
        self.next = idx + 1;
        assert(self.segments == written.segments);
        assert(self.view() =~= old(self).view().push(Some(value))) by {
            assert forall|k: int| 0 <= k < idx implies #[trigger] self.slot_at(k) == old(self).view()[k] by {
                assert(written.slot_at(k) == mid.slot_at(k));
                assert(self.slot_at(k) == mid.slot_at(k));
                assert(mid.view()[k] == mid.slot_at(k));
            }
        }
        idx
    }

    /// The value in slot `idx`.
    pub fn get_ref(&self, idx: u32) -> (r: &T)
        requires
            self.wf(),
            idx < self.view().len(),
            self.view()[idx as int] is Some,
        ensures
            *r == self.view()[idx as int].unwrap(),
    {
        let s = segment_of(idx);
        let o = offset_of(idx);
        assert(self.slot_at(idx as int) == self.view()[idx as int]);
        let seg = self.segments[s].as_ref().unwrap();
        seg.slots[o].as_ref().unwrap()
    }

    /// Moves the value out of slot `idx`; the slot becomes empty.
    pub fn take(&mut self, idx: u32) -> (v: T)
        requires
            old(self).wf(),
            idx < old(self).view().len(),
            old(self).view()[idx as int] is Some,
        ensures
            final(self).wf(),
            v == old(self).view()[idx as int].unwrap(),
            final(self).view() == old(self).view().update(idx as int, None),
    {
        assert(old(self).slot_at(idx as int) == old(self).view()[idx as int]);
        let v = self.take_slot(idx);
        assert(self.view() =~= old(self).view().update(idx as int, None));
        v.unwrap()
    }

    /// Drops every value still held; the slots stay handed out, empty.
    pub fn drop_allocated_values(&mut self)
        requires old(self).wf(),
        ensures
            final(self).wf(),
            final(self).view() == Seq::new(old(self).view().len(), |i: int| None::<T>),
    {
        let count = self.next;
        let mut i: u32 = 0;
        while i < count
            invariant
                self.wf(),
                count == self.next,
                count == old(self).next,
                i <= count,
                forall|k: int| 0 <= k < i ==> #[trigger] self.slot_at(k) is None,
            decreases count - i,
        {
            let _ = self.take_slot(i);
            i += 1;
        }
        assert(self.view() =~= Seq::new(old(self).view().len(), |i: int| None::<T>));
    }

    /// Frees every segment; the slots stay handed out, empty.
    pub fn drop_segments(&mut self)
        requires old(self).wf(),
        ensures
            final(self).wf(),
            final(self).view() == Seq::new(old(self).view().len(), |i: int| None::<T>),
            final(self).allocated() == Seq::new(MAX_SEGMENTS as nat, |s: int| false),
    {
        let mut s: usize = 0;
        while s < MAX_SEGMENTS
            invariant
                self.wf(),
                self.next == old(self).next,
                s <= MAX_SEGMENTS,
                forall|k: int| 0 <= k < s ==> #[trigger] self.segments@[k] is None,
            decreases MAX_SEGMENTS - s,
        {
            self.segments[s] = None;
            s += 1;
        }
        assert(self.view() =~= Seq::new(old(self).view().len(), |i: int| None::<T>)) by {
            assert forall|k: int| 0 <= k < self.next implies #[trigger] self.slot_at(k) is None by {
                assert(self.segments@[k / 64] is None);
            }
        }
        assert(self.allocated() =~= Seq::new(MAX_SEGMENTS as nat, |s: int| false));
    }
}

} // verus!
