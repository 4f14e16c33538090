//! `WorkerDeque<T>`: a bounded work-stealing deque over a ring buffer.
//!
//! The owner pushes and pops at the bottom (last in, first out); a stealer
//! takes from the top (first in, first out). Positions only grow; a position
//! `p` lives in buffer slot `p % capacity`. The capacity is a power of two,
//! at least two.
use vstd::prelude::*;

verus! {

/// `n` is a power of two.
pub open spec fn is_pow2(n: nat) -> bool
    decreases n,
{
    if n <= 1 {
        n == 1
    } else {
        n % 2 == 0 && is_pow2(n / 2)
    }
}

/// Largest capacity that `WorkerDeque::new` accepts: the largest power of
/// two that a `usize` holds, beyond which no power of two is at least the
/// capacity.
pub const MAX_DEQUE_CAPACITY: usize = usize::MAX / 2 + 1;

/// `MAX_DEQUE_CAPACITY` is a power of two.
proof fn lemma_max_capacity_pow2()
    ensures is_pow2(MAX_DEQUE_CAPACITY as nat),
{
    reveal_with_fuel(is_pow2, 65);
    assert(is_pow2(0x8000_0000nat));
    assert(is_pow2(0x8000_0000_0000_0000nat));
    assert(usize::MAX == 0xffff_ffff || usize::MAX == 0xffff_ffff_ffff_ffff);
}

/// Of two powers of two, the smaller is at most half the larger.
proof fn lemma_pow2_gap(a: nat, b: nat)
    requires is_pow2(a), is_pow2(b), a < b,
    ensures 2 * a <= b,
    decreases b,
{
    if a > 1 {
        lemma_pow2_gap(a / 2, b / 2);
    }
}

/// Distinct positions closer than the capacity fall in distinct slots.
proof fn lemma_distinct_slots(a: int, b: int, m: int)
    requires
        0 <= a < b,
        b - a < m,
    ensures
        a % m != b % m,
{
    vstd::arithmetic::div_mod::lemma_fundamental_div_mod(a, m);
    vstd::arithmetic::div_mod::lemma_fundamental_div_mod(b, m);
    if a % m == b % m {
        let qa = a / m;
        let qb = b / m;
        assert(m * qb - m * qa == b - a);
        assert(m * (qb - qa) == b - a) by (nonlinear_arith)
            requires m * qb - m * qa == b - a;
        if qb - qa <= 0 {
            assert(m * (qb - qa) <= 0) by (nonlinear_arith)
                requires qb - qa <= 0, m > 0;
        } else {
            assert(m * (qb - qa) >= m) by (nonlinear_arith)
                requires qb - qa >= 1, m > 0;
        }
    }
}

/// A bounded deque with an owner end (bottom) and a stealing end (top).
pub struct WorkerDeque<T> {
    buffer: Vec<Option<T>>,
    mask: isize,
    bottom: isize,
    top: isize,
}

impl<T> View for WorkerDeque<T> {
    type V = Seq<T>;

    /// The items, from the top (oldest) to the bottom (newest).
    closed spec fn view(&self) -> Seq<T> {
        Seq::new((self.bottom - self.top) as nat, |i: int| self.buffer@[(self.top + i) % (self.mask + 1)].unwrap())
    }
}

impl<T> WorkerDeque<T> {
    /// How many items the deque holds at most.
    pub closed spec fn capacity(&self) -> nat {
        self.buffer@.len()
    }

    /// The position the next push writes.
    pub closed spec fn bottom_pos(&self) -> int {
        self.bottom as int
    }

    /// The ring-buffer invariant.
    pub closed spec fn wf(&self) -> bool {
        &&& self.buffer@.len() == self.mask + 1
        &&& is_pow2(self.buffer@.len())
        &&& self.buffer@.len() >= 2
        &&& 0 <= self.top <= self.bottom
        &&& self.bottom - self.top <= self.mask + 1
        &&& forall|p: int| self.top <= p < self.bottom ==> (#[trigger] self.buffer@[p % (self.mask + 1)]) is Some
    }

    /// An empty deque whose capacity is the least power of two that is at
    /// least `capacity` and at least two.
    pub fn new(capacity: usize) -> (res: Self)
        requires capacity <= MAX_DEQUE_CAPACITY,
        ensures
            res.wf(),
            res.view() == Seq::<T>::empty(),
            res.bottom_pos() == 0,
            is_pow2(res.capacity()),
            res.capacity() >= capacity,
            res.capacity() >= 2,
            res.capacity() == 2 || res.capacity() / 2 < capacity,
    {
        let mut cap: usize = 1;
        while cap < capacity
            invariant
                cap >= 1,
                is_pow2(cap as nat),
                cap == 1 || cap / 2 < capacity,
                capacity <= MAX_DEQUE_CAPACITY,
                cap <= MAX_DEQUE_CAPACITY,
            decreases 2 * capacity - cap,
        {
            proof {
                lemma_max_capacity_pow2();
                lemma_pow2_gap(cap as nat, MAX_DEQUE_CAPACITY as nat);
            }
            assert(is_pow2((cap * 2) as nat)) by {
                assert((cap * 2) as nat / 2 == cap as nat);
            }
            cap = cap * 2;
        }
        if cap < 2 {
            assert(is_pow2(2)) by {
                assert(is_pow2(1));
            }
            assert(2 <= MAX_DEQUE_CAPACITY);
            cap = 2;
        }
        let mut buffer: Vec<Option<T>> = Vec::new();
        let mut i: usize = 0;
        while i < cap
            invariant
                i <= cap,
                buffer@.len() == i,
            decreases cap - i,
        {
            buffer.push(None);
            i += 1;
        }
        let res = WorkerDeque { buffer, mask: (cap - 1) as isize, bottom: 0, top: 0 };
        assert(res.view() =~= Seq::<T>::empty());
        res
    }

    /// The owner pushes `item` at the bottom. A full deque hands `item` back.
    pub fn push(&mut self, item: T) -> (res: Result<(), T>)
        requires
            old(self).wf(),
            old(self).bottom_pos() < isize::MAX,
        ensures
            final(self).wf(),
            final(self).capacity() == old(self).capacity(),
            old(self).view().len() < old(self).capacity() ==> res == Ok::<(), T>(())
                && final(self).view() == old(self).view().push(item)
                && final(self).bottom_pos() == old(self).bottom_pos() + 1,
            old(self).view().len() >= old(self).capacity() ==> res == Err::<(), T>(item)
                && final(self).view() == old(self).view()
                && final(self).bottom_pos() == old(self).bottom_pos(),
    {
        let b = self.bottom;
        let t = self.top;
        if b - t > self.mask {
            return Err(item);
        }
        let m = self.buffer.len();
        let slot = (b as usize) % m;
        assert(slot == (b as int) % (m as int));
        let ghost old_buf = self.buffer@;
        self.buffer[slot] = Some(item);
        self.bottom = b + 1;
        proof {
            assert forall|p: int| t <= p < b implies #[trigger] self.buffer@[p % (m as int)] == old_buf[p % (m as int)] by {
                lemma_distinct_slots(p, b as int, m as int);
            }
            assert forall|p: int| self.top <= p < self.bottom implies (#[trigger] self.buffer@[p % (self.mask + 1)]) is Some by {
                if p < b {
                    assert(self.buffer@[p % (m as int)] == old_buf[p % (m as int)]);
                }
            }
            assert(self.view() =~= old(self).view().push(item)) by {
                assert forall|i: int| 0 <= i < b - t implies #[trigger] self.view()[i] == old(self).view()[i] by {
                    assert(self.buffer@[(t + i) % (m as int)] == old_buf[(t + i) % (m as int)]);
                }
            }
        }
        Ok(())
    }

    /// The owner takes the newest item, from the bottom; `None` when empty.
    pub fn pop(&mut self) -> (res: Option<T>)
        requires old(self).wf(),
        ensures
            final(self).wf(),
            final(self).capacity() == old(self).capacity(),
            final(self).bottom_pos() <= old(self).bottom_pos(),
            old(self).view().len() == 0 ==> res is None && final(self).view() == old(self).view(),
            old(self).view().len() > 0 ==> res == Some(old(self).view().last())
                && final(self).view() == old(self).view().drop_last(),
    {
        let t = self.top;
        let bottom = self.bottom;
        if bottom <= t {
            return None;
        }
        let b = bottom - 1;
        let m = self.buffer.len();
        let slot = (b as usize) % m;
        let ghost old_buf = self.buffer@;
        let item = self.buffer[slot].take();
        if t == b {
            self.top = t + 1;
            self.bottom = t + 1;
        } else {
            self.bottom = b;
        }
        proof {
            assert(old(self).view().last() == old_buf[(b as int) % (m as int)].unwrap());
            assert forall|p: int| t <= p < b implies #[trigger] self.buffer@[p % (m as int)] == old_buf[p % (m as int)] by {
                lemma_distinct_slots(p, b as int, m as int);
            }
            assert(self.view() =~= old(self).view().drop_last()) by {
                assert forall|i: int| 0 <= i < self.view().len() implies #[trigger] self.view()[i] == old(self).view()[i] by {
                    assert(self.buffer@[(t + i) % (m as int)] == old_buf[(t + i) % (m as int)]);
                }
            }
        }
        item
    }

    /// A stealer takes the oldest item, from the top; `None` when empty.
    pub fn steal(&mut self) -> (res: Option<T>)
        requires old(self).wf(),
        ensures
            final(self).wf(),
            final(self).capacity() == old(self).capacity(),
            final(self).bottom_pos() == old(self).bottom_pos(),
            old(self).view().len() == 0 ==> res is None && final(self).view() == old(self).view(),
            old(self).view().len() > 0 ==> res == Some(old(self).view()[0])
                && final(self).view() == old(self).view().drop_first(),
    {
        let t = self.top;
        let b = self.bottom;
        if t >= b {
            return None;
        }
        let m = self.buffer.len();
        let slot = (t as usize) % m;
        let ghost old_buf = self.buffer@;
        let item = self.buffer[slot].take();
        self.top = t + 1;
        proof {
            assert(old(self).view()[0] == old_buf[(t as int) % (m as int)].unwrap());
            assert forall|p: int| t < p < b implies #[trigger] self.buffer@[p % (m as int)] == old_buf[p % (m as int)] by {
                lemma_distinct_slots(t as int, p, m as int);
            }
            assert(self.view() =~= old(self).view().drop_first()) by {
                assert forall|i: int| 0 <= i < self.view().len() implies #[trigger] self.view()[i] == old(self).view()[i + 1] by {
                    assert(self.buffer@[(t + 1 + i) % (m as int)] == old_buf[(t + 1 + i) % (m as int)]);
                }
            }
        }
        item
    }
}

/// What the owner pushes it pops back first, and the deque is as before: a
/// `push` that succeeds followed by a `pop` undoes it.
pub proof fn push_then_pop_undoes<T>(before: Seq<T>, item: T, popped: Option<T>, after: Seq<T>)
    requires
        after == before.push(item).drop_last(),
        popped == Some(before.push(item).last()),
    ensures
        popped == Some(item),
        after == before,
{
    assert(before.push(item).drop_last() =~= before);
}

/// A stealer gets items in the order they were pushed: after pushing `item`
/// onto the items `before`, a steal gets the oldest of them, or `item` when
/// there were none.
pub proof fn steal_takes_oldest<T>(before: Seq<T>, item: T, stolen: Option<T>, after: Seq<T>)
    requires
        after == before.push(item).drop_first(),
        stolen == Some(before.push(item)[0]),
    ensures
        before.len() == 0 ==> stolen == Some(item) && after.len() == 0,
        before.len() > 0 ==> stolen == Some(before[0]) && after == before.drop_first().push(item),
{
    if before.len() > 0 {
        assert(before.push(item).drop_first() =~= before.drop_first().push(item));
    }
}

} // verus!
