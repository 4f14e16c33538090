//! `FoldChain<H, R>`: the per-node accumulation state of the funnel
//! executor. Children get numbered slots as they are discovered; their
//! results are delivered in any order; they are accumulated into the heap in
//! slot order, and the last event finalizes.
use vstd::prelude::*;
use crate::exec::fused::acc_chain;
use crate::fold::Fold;

verus! {

/// A child's slot in a chain.
#[derive(Clone, Copy)]
pub struct SlotRef(pub usize);

/// How many entries of `s` are `Some`.
pub open spec fn count_some<R>(s: Seq<Option<R>>) -> nat
    decreases s.len(),
{
    if s.len() == 0 {
        0
    } else {
        count_some(s.drop_last()) + if s.last() is Some { 1nat } else { 0nat }
    }
}

proof fn lemma_count_some_bound<R>(s: Seq<Option<R>>)
    ensures
        count_some(s) <= s.len(),
        count_some(s) == s.len() ==> forall|i: int| 0 <= i < s.len() ==> (#[trigger] s[i]) is Some,
    decreases s.len(),
{
    if s.len() > 0 {
        lemma_count_some_bound(s.drop_last());
        if count_some(s) == s.len() {
            assert forall|i: int| 0 <= i < s.len() implies (#[trigger] s[i]) is Some by {
                if i < s.len() - 1 {
                    assert(s[i] == s.drop_last()[i]);
                }
            }
        }
    }
}

proof fn lemma_count_all_some<R>(s: Seq<Option<R>>)
    requires forall|i: int| 0 <= i < s.len() ==> (#[trigger] s[i]) is Some,
    ensures count_some(s) == s.len(),
    decreases s.len(),
{
    if s.len() > 0 {
        assert forall|i: int| 0 <= i < s.drop_last().len() implies (#[trigger] s.drop_last()[i]) is Some by {
            assert(s.drop_last()[i] == s[i]);
        }
        lemma_count_all_some(s.drop_last());
        assert(s[s.len() - 1] is Some);
    }
}

proof fn lemma_count_some_set<R>(s: Seq<Option<R>>, i: int, v: R)
    requires
        0 <= i < s.len(),
        s[i] is None,
    ensures
        count_some(s.update(i, Some(v))) == count_some(s) + 1,
    decreases s.len(),
{
    if i == s.len() - 1 {
        assert(s.update(i, Some(v)).drop_last() =~= s.drop_last());
    } else {
        lemma_count_some_set(s.drop_last(), i, v);
        assert(s.update(i, Some(v)).drop_last() =~= s.drop_last().update(i, Some(v)));
    }
}

proof fn lemma_count_some_push_none<R>(s: Seq<Option<R>>)
    ensures count_some(s.push(None)) == count_some(s),
{
    assert(s.push(None).drop_last() =~= s);
}

/// The results of the first `k` slots, unwrapped.
pub open spec fn firsts<R>(results: Seq<Option<R>>, k: int) -> Seq<R> {
    results.take(k).map_values(|o: Option<R>| o.unwrap())
}

/// `r` is the node result of a chain that started from heap `h0` and got the
/// child results `rs`: `acc` folds them in slot order, `fin` finalizes.
pub open spec fn chain_result<H, R, FA, FF>(acc: FA, fin: FF, h0: H, rs: Seq<R>, r: R) -> bool
    where FA: Fn(&H, &R) -> H, FF: Fn(&H) -> R,
{
    exists|hs: Seq<H>| #[trigger] acc_chain(acc, h0, rs, hs) && call_ensures(fin, (&hs.last(),), r)
}

/// The delivered results, unwrapped.
pub open spec fn unwrapped<R>(s: Seq<Option<R>>) -> Seq<R> {
    s.map_values(|o: Option<R>| o.unwrap())
}

/// The accumulation state of one node.
pub struct FoldChain<H, R> {
    heap: H,
    slots: Vec<Option<R>>,
    total_set: bool,
    delivered: usize,
    swept: usize,
    done: bool,
    results: Ghost<Seq<Option<R>>>,
    h0: Ghost<H>,
    heaps: Ghost<Seq<H>>,
}

impl<H, R> FoldChain<H, R> {
    /// The heap the chain started from.
    pub closed spec fn start(&self) -> H {
        self.h0@
    }

    /// The result delivered to each slot handed out, `None` where none yet.
    pub closed spec fn results(&self) -> Seq<Option<R>> {
        self.results@
    }

    /// Whether all slots have been handed out.
    pub closed spec fn total_known(&self) -> bool {
        self.total_set
    }

    /// Whether the chain has produced its result.
    pub closed spec fn finished(&self) -> bool {
        self.done
    }

    /// Every slot handed out has its result.
    pub open spec fn all_delivered(&self) -> bool {
        forall|i: int| 0 <= i < self.results().len() ==> (#[trigger] self.results()[i]) is Some
    }

    /// The chain's invariant for the accumulate phase `acc`: the heap is the
    /// run of `acc` from the start heap over the results of the swept slots,
    /// in slot order.
    pub closed spec fn wf<FA: Fn(&H, &R) -> H>(&self, acc: FA) -> bool {
        &&& self.slots@.len() == self.results@.len()
        &&& self.swept <= self.slots@.len()
        &&& forall|i: int| 0 <= i < self.swept ==> (#[trigger] self.results@[i]) is Some && self.slots@[i] is None
        &&& forall|i: int| self.swept <= i < self.slots@.len() ==> #[trigger] self.slots@[i] == self.results@[i]
        &&& self.delivered == count_some(self.results@)
        &&& self.heaps@.len() == self.swept + 1
        &&& acc_chain(acc, self.h0@, firsts(self.results@, self.swept as int), self.heaps@)
        &&& self.heaps@.last() == self.heap
    }

    /// A chain for a node whose heap is `heap`, with no slot handed out, to
    /// be accumulated with `fold`.
    pub fn new<N, FI, FA, FF>(heap: H, fold: &Fold<FI, FA, FF>) -> (res: Self)
        where FI: Fn(&N) -> H, FA: Fn(&H, &R) -> H, FF: Fn(&H) -> R,
        ensures
            res.wf(fold.acc_fn()),
            res.start() == heap,
            res.results() == Seq::<Option<R>>::empty(),
            !res.total_known(),
            !res.finished(),
    {
        let ghost h = heap;
        let res = FoldChain {
            heap,
            slots: Vec::new(),
            total_set: false,
            delivered: 0,
            swept: 0,
            done: false,
            results: Ghost(Seq::empty()),
            h0: Ghost(h),
            heaps: Ghost(Seq::empty().push(h)),
        };
        assert(firsts(res.results@, 0) =~= Seq::<R>::empty());
        res
    }

    /// Hands out the next slot, for a newly discovered child.
    pub fn push_slot<N, FI, FA, FF>(&mut self, fold: &Fold<FI, FA, FF>) -> (slot: SlotRef)
        where FI: Fn(&N) -> H, FA: Fn(&H, &R) -> H, FF: Fn(&H) -> R,
        requires
            old(self).wf(fold.acc_fn()),
            !old(self).total_known(),
        ensures
            final(self).wf(fold.acc_fn()),
            slot.0 == old(self).results().len(),
            final(self).results() == old(self).results().push(None),
            final(self).start() == old(self).start(),
            final(self).total_known() == old(self).total_known(),
            final(self).finished() == old(self).finished(),
    {
        let slot = self.slots.len();
        self.slots.push(None);
        proof {
            lemma_count_some_push_none(self.results@);
            let old_results = self.results@;
            self.results@ = self.results@.push(None);
            assert(firsts(self.results@, self.swept as int) =~= firsts(old_results, self.swept as int));
        }
        SlotRef(slot)
    }

    /// Delivers `result` into `slot`, without accumulating it.
    fn store<FA2>(&mut self, slot: SlotRef, result: R, Ghost(acc): Ghost<FA2>)
        where FA2: Fn(&H, &R) -> H,
        requires
            old(self).wf(acc),
            slot.0 < old(self).results().len(),
            old(self).results()[slot.0 as int] is None,
        ensures
            final(self).wf(acc),
            final(self).results() == old(self).results().update(slot.0 as int, Some(result)),
            final(self).start() == old(self).start(),
            final(self).total_known() == old(self).total_known(),
            final(self).finished() == old(self).finished(),
            final(self).delivered == count_some(final(self).results()),
    {
        proof {
            lemma_count_some_bound(self.results@);
            if count_some(self.results@) == self.results@.len() {
                assert(self.results@[slot.0 as int] is Some);
            }
            lemma_count_some_set(self.results@, slot.0 as int, result);
        }
        let i = slot.0;
        let len = self.slots.len();
        assert(self.delivered < len);
        self.slots[i] = Some(result);
        self.delivered = self.delivered + 1;
        proof {
            let old_results = self.results@;
            self.results@ = self.results@.update(i as int, Some(result));
            assert(firsts(self.results@, self.swept as int) =~= firsts(old_results, self.swept as int));
        }
    }

    /// Accumulates, in slot order, every delivered result that directly
    /// follows the swept ones.
    fn sweep<N, FI, FA, FF>(&mut self, fold: &Fold<FI, FA, FF>)
        where FI: Fn(&N) -> H, FA: Fn(&H, &R) -> H, FF: Fn(&H) -> R,
        requires
            old(self).wf(fold.acc_fn()),
            forall|h: &H, r: &R| #[trigger] call_requires(fold.acc_fn(), (h, r)),
        ensures
            final(self).wf(fold.acc_fn()),
            final(self).results() == old(self).results(),
            final(self).start() == old(self).start(),
            final(self).total_known() == old(self).total_known(),
            final(self).finished() == old(self).finished(),
            final(self).swept == final(self).slots@.len() || final(self).slots@[final(self).swept as int] is None,
    {
        while self.swept < self.slots.len() && self.slots[self.swept].is_some()
            invariant
                self.wf(fold.acc_fn()),
                self.results() == old(self).results(),
                self.start() == old(self).start(),
                self.total_known() == old(self).total_known(),
                self.finished() == old(self).finished(),
                forall|h: &H, r: &R| #[trigger] call_requires(fold.acc_fn(), (h, r)),
            decreases self.slots@.len() - self.swept,
        {
            let i = self.swept;
            let r = self.slots[i].take().unwrap();
            let ghost before = self.heap;
            fold.accumulate(&mut self.heap, &r);
            let ghost h = self.heap;
            assert(call_ensures(fold.acc_fn(), (&before, &r), h));
            self.swept = i + 1;
            proof {
                let old_heaps = self.heaps@;
                self.heaps@ = self.heaps@.push(h);
                let rs = firsts(self.results@, i as int);
                let rs2 = firsts(self.results@, i + 1);
                assert(rs2 =~= rs.push(r));
                assert forall|j: int| 0 <= j < rs2.len() implies
                    #[trigger] call_ensures(fold.acc_fn(), (&self.heaps@[j], &rs2[j]), self.heaps@[j + 1]) by {
                    if j < i {
                        assert(rs2[j] == rs[j]);
                        assert(self.heaps@[j] == old_heaps[j] && self.heaps@[j + 1] == old_heaps[j + 1]);
                    }
                }
            }
        }
    }

    /// Finalizes a fully swept chain.
    fn finish<N, FI, FA, FF>(&mut self, fold: &Fold<FI, FA, FF>) -> (r: R)
        where FI: Fn(&N) -> H, FA: Fn(&H, &R) -> H, FF: Fn(&H) -> R,
        requires
            old(self).wf(fold.acc_fn()),
            old(self).swept == old(self).slots@.len(),
            forall|h: &H| #[trigger] call_requires(fold.fin_fn(), (h,)),
        ensures
            final(self).wf(fold.acc_fn()),
            final(self).finished(),
            final(self).results() == old(self).results(),
            final(self).start() == old(self).start(),
            final(self).total_known() == old(self).total_known(),
            chain_result(fold.acc_fn(), fold.fin_fn(), old(self).start(), unwrapped(old(self).results()), r),
    {
        let r = fold.finalize(&self.heap);
        self.done = true;
        proof {
            assert(firsts(self.results@, self.swept as int) =~= unwrapped(self.results@));
            assert(acc_chain(fold.acc_fn(), self.h0@, unwrapped(self.results@), self.heaps@));
        }
        r
    }

    /// Delivers a child result; accumulation waits for the last event
    /// (accumulate-on-finalize). When this delivery is the last event, the
    /// results are accumulated in slot order and the node's result returned.
    pub fn deliver_and_finalize<N, FI, FA, FF>(&mut self, slot: SlotRef, result: R, fold: &Fold<FI, FA, FF>)
        -> (res: Option<R>)
        where FI: Fn(&N) -> H, FA: Fn(&H, &R) -> H, FF: Fn(&H) -> R,
        requires
            old(self).wf(fold.acc_fn()),
            !old(self).finished(),
            slot.0 < old(self).results().len(),
            old(self).results()[slot.0 as int] is None,
            forall|h: &H, r: &R| #[trigger] call_requires(fold.acc_fn(), (h, r)),
            forall|h: &H| #[trigger] call_requires(fold.fin_fn(), (h,)),
        ensures
            final(self).wf(fold.acc_fn()),
            final(self).results() == old(self).results().update(slot.0 as int, Some(result)),
            final(self).start() == old(self).start(),
            final(self).total_known() == old(self).total_known(),
            res is Some <==> old(self).total_known() && final(self).all_delivered(),
            res is Some ==> final(self).finished()
                && chain_result(fold.acc_fn(), fold.fin_fn(), final(self).start(), unwrapped(final(self).results()), res.unwrap()),
            res is None ==> !final(self).finished(),
    {
        self.store::<FA>(slot, result, Ghost(fold.acc_fn()));
        if self.total_set && self.delivered == self.slots.len() {
            proof { lemma_count_some_bound(self.results@); }
            self.sweep(fold);
            proof { self.lemma_swept_all(fold.acc_fn()); }
            let r = self.finish(fold);
            Some(r)
        } else {
            proof { if self.delivered != self.slots.len() { self.lemma_not_all(); } }
            None
        }
    }

    /// Marks that every slot has been handed out (accumulate-on-finalize).
    /// When every result is already in, this is the last event: the results
    /// are accumulated in slot order and the node's result returned.
    pub fn set_total_and_finalize<N, FI, FA, FF>(&mut self, fold: &Fold<FI, FA, FF>) -> (res: Option<R>)
        where FI: Fn(&N) -> H, FA: Fn(&H, &R) -> H, FF: Fn(&H) -> R,
        requires
            old(self).wf(fold.acc_fn()),
            !old(self).finished(),
            !old(self).total_known(),
            forall|h: &H, r: &R| #[trigger] call_requires(fold.acc_fn(), (h, r)),
            forall|h: &H| #[trigger] call_requires(fold.fin_fn(), (h,)),
        ensures
            final(self).wf(fold.acc_fn()),
            final(self).results() == old(self).results(),
            final(self).start() == old(self).start(),
            final(self).total_known(),
            res is Some <==> final(self).all_delivered(),
            res is Some ==> final(self).finished()
                && chain_result(fold.acc_fn(), fold.fin_fn(), final(self).start(), unwrapped(final(self).results()), res.unwrap()),
            res is None ==> !final(self).finished(),
    {
        self.total_set = true;
        if self.delivered == self.slots.len() {
            proof { lemma_count_some_bound(self.results@); }
            self.sweep(fold);
            proof { self.lemma_swept_all(fold.acc_fn()); }
            let r = self.finish(fold);
            Some(r)
        } else {
            proof { if self.delivered != self.slots.len() { self.lemma_not_all(); } }
            None
        }
    }

    /// Delivers a child result and accumulates, in slot order, every
    /// delivered result that can be (accumulate-on-arrival). When this
    /// delivery is the last event, the node's result is returned.
    pub fn deliver_and_sweep<N, FI, FA, FF>(&mut self, slot: SlotRef, result: R, fold: &Fold<FI, FA, FF>)
        -> (res: Option<R>)
        where FI: Fn(&N) -> H, FA: Fn(&H, &R) -> H, FF: Fn(&H) -> R,
        requires
            old(self).wf(fold.acc_fn()),
            !old(self).finished(),
            slot.0 < old(self).results().len(),
            old(self).results()[slot.0 as int] is None,
            forall|h: &H, r: &R| #[trigger] call_requires(fold.acc_fn(), (h, r)),
            forall|h: &H| #[trigger] call_requires(fold.fin_fn(), (h,)),
        ensures
            final(self).wf(fold.acc_fn()),
            final(self).results() == old(self).results().update(slot.0 as int, Some(result)),
            final(self).start() == old(self).start(),
            final(self).total_known() == old(self).total_known(),
            res is Some <==> old(self).total_known() && final(self).all_delivered(),
            res is Some ==> final(self).finished()
                && chain_result(fold.acc_fn(), fold.fin_fn(), final(self).start(), unwrapped(final(self).results()), res.unwrap()),
            res is None ==> !final(self).finished(),
    {
        self.store::<FA>(slot, result, Ghost(fold.acc_fn()));
        self.sweep(fold);
        proof { self.lemma_sweep_complete(fold.acc_fn()); }
        if self.total_set && self.swept == self.slots.len() {
            let r = self.finish(fold);
            Some(r)
        } else {
            None
        }
    }

    /// Marks that every slot has been handed out and accumulates what can be
    /// (accumulate-on-arrival). When every result is already in, this is the
    /// last event and the node's result is returned.
    pub fn set_total_and_sweep<N, FI, FA, FF>(&mut self, fold: &Fold<FI, FA, FF>) -> (res: Option<R>)
        where FI: Fn(&N) -> H, FA: Fn(&H, &R) -> H, FF: Fn(&H) -> R,
        requires
            old(self).wf(fold.acc_fn()),
            !old(self).finished(),
            !old(self).total_known(),
            forall|h: &H, r: &R| #[trigger] call_requires(fold.acc_fn(), (h, r)),
            forall|h: &H| #[trigger] call_requires(fold.fin_fn(), (h,)),
        ensures
            final(self).wf(fold.acc_fn()),
            final(self).results() == old(self).results(),
            final(self).start() == old(self).start(),
            final(self).total_known(),
            res is Some <==> final(self).all_delivered(),
            res is Some ==> final(self).finished()
                && chain_result(fold.acc_fn(), fold.fin_fn(), final(self).start(), unwrapped(final(self).results()), res.unwrap()),
            res is None ==> !final(self).finished(),
    {
        self.total_set = true;
        self.sweep(fold);
        proof { self.lemma_sweep_complete(fold.acc_fn()); }
        if self.swept == self.slots.len() {
            let r = self.finish(fold);
            Some(r)
        } else {
            None
        }
    }

    /// When every result is in, a sweep reaches the last slot.
    proof fn lemma_swept_all<FA: Fn(&H, &R) -> H>(&self, acc: FA)
        requires
            self.wf(acc),
            self.all_delivered(),
            self.swept == self.slots@.len() || self.slots@[self.swept as int] is None,
        ensures
            self.swept == self.slots@.len(),
    {
        if self.swept < self.slots@.len() {
            assert(self.results@[self.swept as int] is Some);
        }
    }

    /// After a sweep, the sweep reached the last slot exactly when every
    /// result is in.
    proof fn lemma_sweep_complete<FA: Fn(&H, &R) -> H>(&self, acc: FA)
        requires
            self.wf(acc),
            self.swept == self.slots@.len() || self.slots@[self.swept as int] is None,
        ensures
            self.swept == self.slots@.len() <==> self.all_delivered(),
    {
        if self.swept < self.slots@.len() {
            assert(self.results@[self.swept as int] is None);
        }
    }

    /// While a result is missing, the count of delivered results is short.
    proof fn lemma_not_all(&self)
        requires
            self.delivered == count_some(self.results@),
            self.results@.len() == self.slots@.len(),
            self.delivered != self.slots@.len(),
        ensures
            !self.all_delivered(),
    {
        if self.all_delivered() {
            lemma_count_all_some(self.results@);
        }
    }
}

} // verus!
