use std::sync::Arc;
use vstd::prelude::*;
use crate::fold::explainer::{
    clone_copy, clone_steps, copy_result_steps, described, described_once, explained, result_cloned,
    result_copy, steps_copied, ExplainerHeap, ExplainerResult, ExplainerStep,
};

verus! {

/// `new_acc` and `new_fin` are `acc` and `fin` with the result type changed
/// by `mapper` (forward) and `backmapper` (backward): the new accumulate
/// hands `backmapper(r)` to the old one, the new finalize returns `mapper`
/// of the old result. Each new phase may be called where the old phase and
/// the map it uses may be.
pub open spec fn result_mapped<H, R, RNew, FA, FF, M, B, GA, GF>(
    acc: FA,
    fin: FF,
    mapper: M,
    backmapper: B,
    new_acc: GA,
    new_fin: GF,
) -> bool
    where
        FA: Fn(&H, &R) -> H, FF: Fn(&H) -> R, M: Fn(&R) -> RNew, B: Fn(&RNew) -> R,
        GA: Fn(&H, &RNew) -> H, GF: Fn(&H) -> RNew,
{
    &&& forall|h: &H, r: &RNew|
        (call_requires(backmapper, (r,))
            && forall|b: R| call_ensures(backmapper, (r,), b) ==> call_requires(acc, (h, &b)))
            ==> #[trigger] call_requires(new_acc, (h, r))
    &&& forall|h: &H, r: &RNew, h2: H| #[trigger] call_ensures(new_acc, (h, r), h2) ==>
        exists|b: R| call_ensures(backmapper, (r,), b) && call_ensures(acc, (h, &b), h2)
    &&& forall|h: &H|
        (call_requires(fin, (h,))
            && forall|r: R| call_ensures(fin, (h,), r) ==> call_requires(mapper, (&r,)))
            ==> #[trigger] call_requires(new_fin, (h,))
    &&& forall|h: &H, out: RNew| #[trigger] call_ensures(new_fin, (h,), out) ==>
        exists|r: R| call_ensures(fin, (h,), r) && call_ensures(mapper, (&r,), out)
}

/// `new_acc` and `new_fin` are `acc` and `fin` with each result paired with
/// `mapper` of it: the new finalize returns `(r, mapper(&r))` for a result
/// `r` of the old one, the new accumulate hands the first component to the
/// old one.
pub open spec fn result_zipped<H, R, RZip, FA, FF, M, GA, GF>(
    acc: FA,
    fin: FF,
    mapper: M,
    new_acc: GA,
    new_fin: GF,
) -> bool
    where
        FA: Fn(&H, &R) -> H, FF: Fn(&H) -> R, M: Fn(&R) -> RZip,
        GA: Fn(&H, &(R, RZip)) -> H, GF: Fn(&H) -> (R, RZip),
{
    &&& forall|h: &H, x: &(R, RZip)| call_requires(acc, (h, &x.0))
        ==> #[trigger] call_requires(new_acc, (h, x))
    &&& forall|h: &H, x: &(R, RZip), h2: H| #[trigger] call_ensures(new_acc, (h, x), h2)
        ==> call_ensures(acc, (h, &x.0), h2)
    &&& forall|h: &H|
        (call_requires(fin, (h,))
            && forall|r: R| call_ensures(fin, (h,), r) ==> call_requires(mapper, (&r,)))
            ==> #[trigger] call_requires(new_fin, (h,))
    &&& forall|h: &H, out: (R, RZip)| #[trigger] call_ensures(new_fin, (h,), out) ==>
        call_ensures(fin, (h,), out.0) && call_ensures(mapper, (&out.0,), out.1)
}

/// `(pi, pa, pf)` runs the folds `(fi, fa, ff)` and `(gi, ga, gf)` side by
/// side: heaps and results are pairs whose components are exactly what each
/// fold computes alone, and each paired phase may be called where both
/// component phases may be.
pub open spec fn paired<N, H, R, H2, R2, FI, FA, FF, GI, GA, GF, PI, PA, PF>(
    fi: FI, fa: FA, ff: FF,
    gi: GI, ga: GA, gf: GF,
    pi: PI, pa: PA, pf: PF,
) -> bool
    where
        FI: Fn(&N) -> H, FA: Fn(&H, &R) -> H, FF: Fn(&H) -> R,
        GI: Fn(&N) -> H2, GA: Fn(&H2, &R2) -> H2, GF: Fn(&H2) -> R2,
        PI: Fn(&N) -> (H, H2), PA: Fn(&(H, H2), &(R, R2)) -> (H, H2), PF: Fn(&(H, H2)) -> (R, R2),
{
    &&& forall|n: &N| call_requires(fi, (n,)) && call_requires(gi, (n,)) ==> #[trigger] call_requires(pi, (n,))
    &&& forall|n: &N, h: (H, H2)| #[trigger] call_ensures(pi, (n,), h) ==>
        call_ensures(fi, (n,), h.0) && call_ensures(gi, (n,), h.1)
    &&& forall|h: &(H, H2), r: &(R, R2)|
        call_requires(fa, (&h.0, &r.0)) && call_requires(ga, (&h.1, &r.1)) ==> #[trigger] call_requires(pa, (h, r))
    &&& forall|h: &(H, H2), r: &(R, R2), h2: (H, H2)| #[trigger] call_ensures(pa, (h, r), h2) ==>
        call_ensures(fa, (&h.0, &r.0), h2.0) && call_ensures(ga, (&h.1, &r.1), h2.1)
    &&& forall|h: &(H, H2)| call_requires(ff, (&h.0,)) && call_requires(gf, (&h.1,)) ==> #[trigger] call_requires(pf, (h,))
    &&& forall|h: &(H, H2), r: (R, R2)| #[trigger] call_ensures(pf, (h,), r) ==>
        call_ensures(ff, (&h.0,), r.0) && call_ensures(gf, (&h.1,), r.1)
}

/// `new_init` is `init` after `f`: it turns each new node into an old one
/// with `f` and answers what `init` answers on it; it may be called where
/// `f` may, and `init` may on each answer of `f`.
pub open spec fn init_contramapped<N, H, NewN, FI, T, GI>(init: FI, f: T, new_init: GI) -> bool
    where FI: Fn(&N) -> H, T: Fn(&NewN) -> N, GI: Fn(&NewN) -> H,
{
    &&& forall|n: &NewN|
        (call_requires(f, (n,)) && forall|m: N| call_ensures(f, (n,), m) ==> call_requires(init, (&m,)))
            ==> #[trigger] call_requires(new_init, (n,))
    &&& forall|n: &NewN, h: H| #[trigger] call_ensures(new_init, (n,), h) ==>
        exists|m: N| call_ensures(f, (n,), m) && call_ensures(init, (&m,), h)
}

/// A fold over a tree, given by its three phases.
///
/// `init: Fn(&N) -> H` builds the heap of a node, `accumulate: Fn(&H, &R) -> H`
/// folds one child result into a heap, and `finalize: Fn(&H) -> R` turns the
/// heap into the node's result. The phases are shared behind `Arc`, so a
/// fold is cheap to copy and combinators reuse the phases they keep.
pub struct Fold<FI, FA, FF> {
    pub(crate) impl_init: Arc<FI>,
    pub(crate) impl_accumulate: Arc<FA>,
    pub(crate) impl_finalize: Arc<FF>,
}

impl<FI, FA, FF> Fold<FI, FA, FF> {
    /// The init phase.
    pub closed spec fn init_fn(&self) -> FI {
        *self.impl_init
    }

    /// The accumulate phase.
    pub closed spec fn acc_fn(&self) -> FA {
        *self.impl_accumulate
    }

    /// The finalize phase.
    pub closed spec fn fin_fn(&self) -> FF {
        *self.impl_finalize
    }

    /// Builds a fold from its three phases.
    pub fn new<N, H, R>(init: FI, accumulate: FA, finalize: FF) -> (res: Self)
        where FI: Fn(&N) -> H, FA: Fn(&H, &R) -> H, FF: Fn(&H) -> R,
        ensures
            res.init_fn() == init,
            res.acc_fn() == accumulate,
            res.fin_fn() == finalize,
    {
        Fold {
            impl_init: Arc::new(init),
            impl_accumulate: Arc::new(accumulate),
            impl_finalize: Arc::new(finalize),
        }
    }

    /// Runs the init phase on `node`.
    pub fn init<N, H>(&self, node: &N) -> (h: H)
        where FI: Fn(&N) -> H,
        requires
            call_requires(self.init_fn(), (node,)),
        ensures
            call_ensures(self.init_fn(), (node,), h),
    {
        (self.impl_init)(node)
    }

    /// Runs the accumulate phase: folds `result` into `heap`.
    pub fn accumulate<H, R>(&self, heap: &mut H, result: &R)
        where FA: Fn(&H, &R) -> H,
        requires
            call_requires(self.acc_fn(), (&*old(heap), result)),
        ensures
            call_ensures(self.acc_fn(), (&*old(heap), result), *final(heap)),
    {
        let h = (self.impl_accumulate)(heap, result);
        *heap = h;
    }

    /// Runs the finalize phase on `heap`.
    pub fn finalize<H, R>(&self, heap: &H) -> (r: R)
        where FF: Fn(&H) -> R,
        requires
            call_requires(self.fin_fn(), (heap,)),
        ensures
            call_ensures(self.fin_fn(), (heap,), r),
    {
        (self.impl_finalize)(heap)
    }

    /// Wraps the init phase: the new init hands each node and the old init to
    /// `wrapper`, whose answer is the heap. The other phases are kept.
    pub fn wrap_init<N, H, W>(&self, wrapper: W) -> (res: Fold<impl Fn(&N) -> H, FA, FF>)
        where FI: Fn(&N) -> H, W: Fn(&N, &FI) -> H,
        ensures
            forall|n: &N| call_requires(wrapper, (n, &self.init_fn())) ==> #[trigger] call_requires(res.init_fn(), (n,)),
            forall|n: &N, h: H| #[trigger] call_ensures(res.init_fn(), (n,), h)
                ==> call_ensures(wrapper, (n, &self.init_fn()), h),
            res.acc_fn() == self.acc_fn(),
            res.fin_fn() == self.fin_fn(),
    {
        let inner = self.impl_init.clone();
        let new_init = move |n: &N| -> (h: H)
            requires call_requires(&wrapper, (n, &*inner)),
            ensures call_ensures(&wrapper, (n, &*inner), h),
        { wrapper(n, &*inner) };
        Fold {
            impl_init: Arc::new(new_init),
            impl_accumulate: self.impl_accumulate.clone(),
            impl_finalize: self.impl_finalize.clone(),
        }
    }

    /// Wraps the accumulate phase: the new accumulate hands each heap, child
    /// result and the old accumulate to `wrapper`. The other phases are kept.
    pub fn wrap_accumulate<H, R, W>(&self, wrapper: W) -> (res: Fold<FI, impl Fn(&H, &R) -> H, FF>)
        where FA: Fn(&H, &R) -> H, W: Fn(&H, &R, &FA) -> H,
        ensures
            forall|h: &H, r: &R| call_requires(wrapper, (h, r, &self.acc_fn()))
                ==> #[trigger] call_requires(res.acc_fn(), (h, r)),
            forall|h: &H, r: &R, h2: H| #[trigger] call_ensures(res.acc_fn(), (h, r), h2)
                ==> call_ensures(wrapper, (h, r, &self.acc_fn()), h2),
            res.init_fn() == self.init_fn(),
            res.fin_fn() == self.fin_fn(),
    {
        let inner = self.impl_accumulate.clone();
        let new_acc = move |h: &H, r: &R| -> (h2: H)
            requires call_requires(&wrapper, (h, r, &*inner)),
            ensures call_ensures(&wrapper, (h, r, &*inner), h2),
        { wrapper(h, r, &*inner) };
        Fold {
            impl_init: self.impl_init.clone(),
            impl_accumulate: Arc::new(new_acc),
            impl_finalize: self.impl_finalize.clone(),
        }
    }

    /// Wraps the finalize phase: the new finalize hands each heap and the old
    /// finalize to `wrapper`, whose answer is the result. The other phases are kept.
    pub fn wrap_finalize<H, R, W>(&self, wrapper: W) -> (res: Fold<FI, FA, impl Fn(&H) -> R>)
        where FF: Fn(&H) -> R, W: Fn(&H, &FF) -> R,
        ensures
            forall|h: &H| call_requires(wrapper, (h, &self.fin_fn())) ==> #[trigger] call_requires(res.fin_fn(), (h,)),
            forall|h: &H, r: R| #[trigger] call_ensures(res.fin_fn(), (h,), r)
                ==> call_ensures(wrapper, (h, &self.fin_fn()), r),
            res.init_fn() == self.init_fn(),
            res.acc_fn() == self.acc_fn(),
    {
        let inner = self.impl_finalize.clone();
        let new_fin = move |h: &H| -> (r: R)
            requires call_requires(&wrapper, (h, &*inner)),
            ensures call_ensures(&wrapper, (h, &*inner), r),
        { wrapper(h, &*inner) };
        Fold {
            impl_init: self.impl_init.clone(),
            impl_accumulate: self.impl_accumulate.clone(),
            impl_finalize: Arc::new(new_fin),
        }
    }

    /// Changes the result type from `R` to `RNew`: the new finalize maps the
    /// old result forward with `mapper`; the new accumulate maps each incoming
    /// `RNew` back with `backmapper` before the old accumulate sees it.
    pub fn map<N, H, R, RNew, M, B>(&self, mapper: M, backmapper: B)
        -> (res: Fold<FI, impl Fn(&H, &RNew) -> H, impl Fn(&H) -> RNew>)
        where FI: Fn(&N) -> H, FA: Fn(&H, &R) -> H, FF: Fn(&H) -> R, M: Fn(&R) -> RNew, B: Fn(&RNew) -> R,
        ensures
            res.init_fn() == self.init_fn(),
            result_mapped(self.acc_fn(), self.fin_fn(), mapper, backmapper, res.acc_fn(), res.fin_fn()),
    {
        let acc = self.impl_accumulate.clone();
        let fin = self.impl_finalize.clone();
        assert(*acc == self.acc_fn() && *fin == self.fin_fn());
        let new_acc = move |h: &H, r: &RNew| -> (h2: H)
            requires
                call_requires(&backmapper, (r,)),
                forall|b: R| call_ensures(&backmapper, (r,), b) ==> call_requires(&*acc, (h, &b)),
            ensures
                exists|b: R| call_ensures(&backmapper, (r,), b) && call_ensures(&*acc, (h, &b), h2),
        {
            let b = backmapper(r);
            acc(h, &b)
        };
        let new_fin = move |h: &H| -> (out: RNew)
            requires
                call_requires(&*fin, (h,)),
                forall|r: R| call_ensures(&*fin, (h,), r) ==> call_requires(&mapper, (&r,)),
            ensures
                exists|r: R| call_ensures(&*fin, (h,), r) && call_ensures(&mapper, (&r,), out),
        {
            let r = fin(h);
            mapper(&r)
        };
        Fold {
            impl_init: self.impl_init.clone(),
            impl_accumulate: Arc::new(new_acc),
            impl_finalize: Arc::new(new_fin),
        }
    }

    /// The same as [`Fold::map`]: the result type changes from `R` to `RNew`
    /// with a forward and a backward map.
    pub fn map_r_bi<N, H, R, RNew, M, B>(&self, mapper: M, backmapper: B)
        -> (res: Fold<FI, impl Fn(&H, &RNew) -> H, impl Fn(&H) -> RNew>)
        where FI: Fn(&N) -> H, FA: Fn(&H, &R) -> H, FF: Fn(&H) -> R, M: Fn(&R) -> RNew, B: Fn(&RNew) -> R,
        ensures
            res.init_fn() == self.init_fn(),
            result_mapped(self.acc_fn(), self.fin_fn(), mapper, backmapper, res.acc_fn(), res.fin_fn()),
    {
        self.map(mapper, backmapper)
    }

    /// Pairs each result with `mapper` applied to it: the new finalize returns
    /// `(r, mapper(&r))` for a result `r` of the old finalize, and the new
    /// accumulate hands the first component of each pair to the old accumulate.
    pub fn zipmap<N, H, R, RZip, M>(&self, mapper: M)
        -> (res: Fold<FI, impl Fn(&H, &(R, RZip)) -> H, impl Fn(&H) -> (R, RZip)>)
        where FI: Fn(&N) -> H, FA: Fn(&H, &R) -> H, FF: Fn(&H) -> R, M: Fn(&R) -> RZip,
        ensures
            res.init_fn() == self.init_fn(),
            result_zipped(self.acc_fn(), self.fin_fn(), mapper, res.acc_fn(), res.fin_fn()),
    {
        let acc = self.impl_accumulate.clone();
        let fin = self.impl_finalize.clone();
        assert(*acc == self.acc_fn() && *fin == self.fin_fn());
        let new_acc = move |h: &H, x: &(R, RZip)| -> (h2: H)
            requires call_requires(&*acc, (h, &x.0)),
            ensures call_ensures(&*acc, (h, &x.0), h2),
        { acc(h, &x.0) };
        let new_fin = move |h: &H| -> (out: (R, RZip))
            requires
                call_requires(&*fin, (h,)),
                forall|r: R| call_ensures(&*fin, (h,), r) ==> call_requires(&mapper, (&r,)),
            ensures
                call_ensures(&*fin, (h,), out.0) && call_ensures(&mapper, (&out.0,), out.1),
        {
            let r = fin(h);
            let z = mapper(&r);
            (r, z)
        };
        Fold {
            impl_init: self.impl_init.clone(),
            impl_accumulate: Arc::new(new_acc),
            impl_finalize: Arc::new(new_fin),
        }
    }

    /// Changes the node type from `N` to `NewN`: the new init turns each node
    /// into an `N` with `f` and hands it to the old init. The other phases are kept.
    pub fn contramap<N, H, NewN, T>(&self, f: T) -> (res: Fold<impl Fn(&NewN) -> H, FA, FF>)
        where FI: Fn(&N) -> H, T: Fn(&NewN) -> N,
        ensures
            init_contramapped(self.init_fn(), f, res.init_fn()),
            res.acc_fn() == self.acc_fn(),
            res.fin_fn() == self.fin_fn(),
    {
        let init = self.impl_init.clone();
        assert(*init == self.init_fn());
        let new_init = move |n: &NewN| -> (h: H)
            requires
                call_requires(&f, (n,)),
                forall|m: N| call_ensures(&f, (n,), m) ==> call_requires(&*init, (&m,)),
            ensures
                exists|m: N| call_ensures(&f, (n,), m) && call_ensures(&*init, (&m,), h),
        {
            let m = f(n);
            init(&m)
        };
        Fold {
            impl_init: Arc::new(new_init),
            impl_accumulate: self.impl_accumulate.clone(),
            impl_finalize: self.impl_finalize.clone(),
        }
    }

    /// The same as [`Fold::contramap`]: the node type changes from `N` to `NewN`.
    pub fn contramap_n<N, H, NewN, T>(&self, f: T) -> (res: Fold<impl Fn(&NewN) -> H, FA, FF>)
        where FI: Fn(&N) -> H, T: Fn(&NewN) -> N,
        ensures
            init_contramapped(self.init_fn(), f, res.init_fn()),
            res.acc_fn() == self.acc_fn(),
            res.fin_fn() == self.fin_fn(),
    {
        self.contramap(f)
    }

    /// Replaces all three phases at once: each mapper is handed the current
    /// phase and returns the new one.
    pub fn map_phases<GI, GA, GF, MI, MA, MF>(&self, map_init: MI, map_acc: MA, map_fin: MF)
        -> (res: Fold<GI, GA, GF>)
        where MI: FnOnce(Arc<FI>) -> GI, MA: FnOnce(Arc<FA>) -> GA, MF: FnOnce(Arc<FF>) -> GF,
        requires
            forall|a: Arc<FI>| *a == self.init_fn() ==> #[trigger] call_requires(map_init, (a,)),
            forall|a: Arc<FA>| *a == self.acc_fn() ==> #[trigger] call_requires(map_acc, (a,)),
            forall|a: Arc<FF>| *a == self.fin_fn() ==> #[trigger] call_requires(map_fin, (a,)),
        ensures
            exists|a: Arc<FI>| *a == self.init_fn() && #[trigger] call_ensures(map_init, (a,), res.init_fn()),
            exists|a: Arc<FA>| *a == self.acc_fn() && #[trigger] call_ensures(map_acc, (a,), res.acc_fn()),
            exists|a: Arc<FF>| *a == self.fin_fn() && #[trigger] call_ensures(map_fin, (a,), res.fin_fn()),
    {
        let i = self.impl_init.clone();
        let a = self.impl_accumulate.clone();
        let f = self.impl_finalize.clone();
        assert(*i == self.init_fn() && *a == self.acc_fn() && *f == self.fin_fn());
        let ghost (gi, ga, gf) = (i, a, f);
        let new_init = map_init(i);
        let new_acc = map_acc(a);
        let new_fin = map_fin(f);
        let res = Fold {
            impl_init: Arc::new(new_init),
            impl_accumulate: Arc::new(new_acc),
            impl_finalize: Arc::new(new_fin),
        };
        assert(call_ensures(map_init, (gi,), res.init_fn()));
        assert(call_ensures(map_acc, (ga,), res.acc_fn()));
        assert(call_ensures(map_fin, (gf,), res.fin_fn()));
        res
    }

    /// The explaining fold: its heap keeps the node, this fold's heap as the
    /// working heap, and each accumulate step (the incoming child result and
    /// the heap it gave); its result is this fold's result together with the
    /// finished heap. The tree and this fold's results are unchanged.
    pub fn explainer<N: Clone, H: Clone, R: Clone>(&self) -> (res: Fold<
        impl Fn(&N) -> ExplainerHeap<N, H, ExplainerResult<N, H, R>>,
        impl Fn(&ExplainerHeap<N, H, ExplainerResult<N, H, R>>, &ExplainerResult<N, H, R>)
            -> ExplainerHeap<N, H, ExplainerResult<N, H, R>>,
        impl Fn(&ExplainerHeap<N, H, ExplainerResult<N, H, R>>) -> ExplainerResult<N, H, R>,
    >)
        where FI: Fn(&N) -> H, FA: Fn(&H, &R) -> H, FF: Fn(&H) -> R,
        ensures
            explained(self.init_fn(), self.acc_fn(), self.fin_fn(), res.init_fn(), res.acc_fn(), res.fin_fn()),
    {
        let init = self.impl_init.clone();
        let acc = self.impl_accumulate.clone();
        let fin = self.impl_finalize.clone();
        assert(*init == self.init_fn() && *acc == self.acc_fn() && *fin == self.fin_fn());
        let new_init = move |n: &N| -> (h: ExplainerHeap<N, H, ExplainerResult<N, H, R>>)
            requires call_requires(&*init, (n,)),
            ensures
                cloned::<N>(*n, h.node),
                call_ensures(&*init, (n,), h.working_heap),
                h.transitions@.len() == 0,
        {
            let wh = init(n);
            ExplainerHeap::new(n.clone(), wh)
        };
        let new_acc = move |h: &ExplainerHeap<N, H, ExplainerResult<N, H, R>>, c: &ExplainerResult<N, H, R>|
            -> (h2: ExplainerHeap<N, H, ExplainerResult<N, H, R>>)
            requires call_requires(&*acc, (&h.working_heap, &c.orig_result)),
            ensures
                cloned::<N>(h.node, h2.node),
                call_ensures(&*acc, (&h.working_heap, &c.orig_result), h2.working_heap),
                h2.transitions@.len() == h.transitions@.len() + 1,
                steps_copied(result_copy(), h.transitions@, h2.transitions@.drop_last()),
                result_cloned(*c, h2.transitions@.last().incoming_result),
                cloned::<H>(h2.working_heap, h2.transitions@.last().resulting_heap),
        {
            let wh = acc(&h.working_heap, &c.orig_result);
            let mut steps = copy_result_steps(&h.transitions);
            let ghost old_steps = steps@;
            steps.push(ExplainerStep { incoming_result: c.deep_clone(), resulting_heap: wh.clone() });
            assert(steps@.drop_last() =~= old_steps);
            ExplainerHeap { node: h.node.clone(), working_heap: wh, transitions: steps }
        };
        let new_fin = move |h: &ExplainerHeap<N, H, ExplainerResult<N, H, R>>| -> (out: ExplainerResult<N, H, R>)
            requires call_requires(&*fin, (&h.working_heap,)),
            ensures
                call_ensures(&*fin, (&h.working_heap,), out.orig_result),
                cloned::<N>(h.node, out.node),
                cloned::<H>(h.working_heap, out.working_heap),
                steps_copied(result_copy(), h.transitions@, out.transitions@),
        {
            let r = fin(&h.working_heap);
            ExplainerResult {
                orig_result: r,
                node: h.node.clone(),
                working_heap: h.working_heap.clone(),
                transitions: copy_result_steps(&h.transitions),
            }
        };
        Fold::new(new_init, new_acc, new_fin)
    }

    /// The describing fold: heaps as in [`Fold::explainer`], with child
    /// results of this fold's own type; at each node's finalize the heap is
    /// rendered by the formatter fold `fmt` (its finalize of its init on the
    /// heap), the string is handed to `emit`, and this fold's result is
    /// returned unchanged.
    pub fn explainer_describe<N: Clone, H: Clone, R: Clone, S, GI, GA, GF, E>(&self, fmt: &Fold<GI, GA, GF>, emit: E)
        -> (res: Fold<
            impl Fn(&N) -> ExplainerHeap<N, H, R>,
            impl Fn(&ExplainerHeap<N, H, R>, &R) -> ExplainerHeap<N, H, R>,
            impl Fn(&ExplainerHeap<N, H, R>) -> R,
        >)
        where
            FI: Fn(&N) -> H, FA: Fn(&H, &R) -> H, FF: Fn(&H) -> R,
            GI: Fn(&ExplainerHeap<N, H, R>) -> S, GF: Fn(&S) -> String, E: Fn(&String),
        ensures
            described(self.init_fn(), self.acc_fn(), self.fin_fn(), fmt.init_fn(), fmt.fin_fn(), emit,
                res.init_fn(), res.acc_fn(), res.fin_fn()),
    {
        let init = self.impl_init.clone();
        let acc = self.impl_accumulate.clone();
        let fin = self.impl_finalize.clone();
        let fmt_init = fmt.impl_init.clone();
        let fmt_fin = fmt.impl_finalize.clone();
        assert(*init == self.init_fn() && *acc == self.acc_fn() && *fin == self.fin_fn());
        assert(*fmt_init == fmt.init_fn() && *fmt_fin == fmt.fin_fn());
        let new_init = move |n: &N| -> (h: ExplainerHeap<N, H, R>)
            requires call_requires(&*init, (n,)),
            ensures
                cloned::<N>(*n, h.node),
                call_ensures(&*init, (n,), h.working_heap),
                h.transitions@.len() == 0,
        {
            let wh = init(n);
            ExplainerHeap::new(n.clone(), wh)
        };
        let new_acc = move |h: &ExplainerHeap<N, H, R>, c: &R| -> (h2: ExplainerHeap<N, H, R>)
            requires call_requires(&*acc, (&h.working_heap, c)),
            ensures
                cloned::<N>(h.node, h2.node),
                call_ensures(&*acc, (&h.working_heap, c), h2.working_heap),
                h2.transitions@.len() == h.transitions@.len() + 1,
                steps_copied(clone_copy(), h.transitions@, h2.transitions@.drop_last()),
                cloned::<R>(*c, h2.transitions@.last().incoming_result),
                cloned::<H>(h2.working_heap, h2.transitions@.last().resulting_heap),
        {
            let wh = acc(&h.working_heap, c);
            let mut steps = clone_steps(&h.transitions);
            let ghost old_steps = steps@;
            steps.push(ExplainerStep { incoming_result: c.clone(), resulting_heap: wh.clone() });
            assert(steps@.drop_last() =~= old_steps);
            ExplainerHeap { node: h.node.clone(), working_heap: wh, transitions: steps }
        };
        let new_fin = move |h: &ExplainerHeap<N, H, R>| -> (r: R)
            requires
                call_requires(&*fin, (&h.working_heap,)),
                call_requires(&*fmt_init, (h,)),
                forall|st: S| call_ensures(&*fmt_init, (h,), st) ==> #[trigger] call_requires(&*fmt_fin, (&st,)),
                forall|st: S, s: String| call_ensures(&*fmt_init, (h,), st) && #[trigger] call_ensures(&*fmt_fin, (&st,), s)
                    ==> call_requires(&emit, (&s,)),
            ensures
                call_ensures(&*fin, (&h.working_heap,), r),
                described_once(&*fmt_init, &*fmt_fin, &emit, *h),
        {
            let st = fmt_init(h);
            let s = fmt_fin(&st);
            emit(&s);
            fin(&h.working_heap)
        };
        Fold::new(new_init, new_acc, new_fin)
    }

    /// Runs two folds side by side over the same nodes: heaps and results are
    /// pairs whose components are exactly what each fold computes alone.
    pub fn product<N, H, R, GI, GA, GF, H2, R2>(&self, other: &Fold<GI, GA, GF>)
        -> (res: Fold<impl Fn(&N) -> (H, H2), impl Fn(&(H, H2), &(R, R2)) -> (H, H2), impl Fn(&(H, H2)) -> (R, R2)>)
        where
            FI: Fn(&N) -> H, FA: Fn(&H, &R) -> H, FF: Fn(&H) -> R,
            GI: Fn(&N) -> H2, GA: Fn(&H2, &R2) -> H2, GF: Fn(&H2) -> R2,
        ensures
            paired(self.init_fn(), self.acc_fn(), self.fin_fn(), other.init_fn(), other.acc_fn(), other.fin_fn(),
                res.init_fn(), res.acc_fn(), res.fin_fn()),
    {
        let i1 = self.impl_init.clone();
        let i2 = other.impl_init.clone();
        let a1 = self.impl_accumulate.clone();
        let a2 = other.impl_accumulate.clone();
        let f1 = self.impl_finalize.clone();
        let f2 = other.impl_finalize.clone();
        assert(*i1 == self.init_fn() && *i2 == other.init_fn());
        assert(*a1 == self.acc_fn() && *a2 == other.acc_fn());
        assert(*f1 == self.fin_fn() && *f2 == other.fin_fn());
        let new_init = move |n: &N| -> (h: (H, H2))
            requires call_requires(&*i1, (n,)), call_requires(&*i2, (n,)),
            ensures call_ensures(&*i1, (n,), h.0), call_ensures(&*i2, (n,), h.1),
        { (i1(n), i2(n)) };
        let new_acc = move |heap: &(H, H2), child: &(R, R2)| -> (h2: (H, H2))
            requires
                call_requires(&*a1, (&heap.0, &child.0)),
                call_requires(&*a2, (&heap.1, &child.1)),
            ensures
                call_ensures(&*a1, (&heap.0, &child.0), h2.0),
                call_ensures(&*a2, (&heap.1, &child.1), h2.1),
        { (a1(&heap.0, &child.0), a2(&heap.1, &child.1)) };
        let new_fin = move |heap: &(H, H2)| -> (r: (R, R2))
            requires call_requires(&*f1, (&heap.0,)), call_requires(&*f2, (&heap.1,)),
            ensures call_ensures(&*f1, (&heap.0,), r.0), call_ensures(&*f2, (&heap.1,), r.1),
        { (f1(&heap.0), f2(&heap.1)) };
        Fold {
            impl_init: Arc::new(new_init),
            impl_accumulate: Arc::new(new_acc),
            impl_finalize: Arc::new(new_fin),
        }
    }

}

impl<FI, FA, FF> Clone for Fold<FI, FA, FF> {
    /// Another handle on the same three phases.
    fn clone(&self) -> (res: Self)
        ensures
            res.init_fn() == self.init_fn(),
            res.acc_fn() == self.acc_fn(),
            res.fin_fn() == self.fin_fn(),
    {
        let res = Fold {
            impl_init: self.impl_init.clone(),
            impl_accumulate: self.impl_accumulate.clone(),
            impl_finalize: self.impl_finalize.clone(),
        };
        assert(res.init_fn() == self.init_fn() && res.acc_fn() == self.acc_fn() && res.fin_fn() == self.fin_fn());
        res
    }
}

/// Builds a fold from its three phases.
pub fn fold<N, H, R, FI, FA, FF>(init: FI, accumulate: FA, finalize: FF) -> (res: Fold<FI, FA, FF>)
    where FI: Fn(&N) -> H, FA: Fn(&H, &R) -> H, FF: Fn(&H) -> R,
    ensures
        res.init_fn() == init,
        res.acc_fn() == accumulate,
        res.fin_fn() == finalize,
{
    Fold::new(init, accumulate, finalize)
}

/// Builds a fold whose result is its heap: finalize returns a clone of the heap.
pub fn simple_fold<N, H: Clone, FI, FA>(init: FI, accumulate: FA)
    -> (res: Fold<FI, FA, impl Fn(&H) -> H>)
    where FI: Fn(&N) -> H, FA: Fn(&H, &H) -> H,
    ensures
        res.init_fn() == init,
        res.acc_fn() == accumulate,
        forall|h: &H| #[trigger] call_requires(res.fin_fn(), (h,)),
        forall|h: &H, r: H| #[trigger] call_ensures(res.fin_fn(), (h,), r) ==> cloned::<H>(*h, r),
{
    let fin = |heap: &H| -> (r: H)
        ensures cloned::<H>(*heap, r),
    { heap.clone() };
    Fold::new(init, accumulate, fin)
}

/// Replaces the init phase of `run` by what `mapper` returns when handed the
/// current init; accumulate and finalize are kept.
pub fn map_init<FI, FA, FF, G, M>(run: &Fold<FI, FA, FF>, mapper: M) -> (res: Fold<G, FA, FF>)
    where M: FnOnce(Arc<FI>) -> G,
    requires
        forall|a: Arc<FI>| *a == run.init_fn() ==> #[trigger] call_requires(mapper, (a,)),
    ensures
        exists|a: Arc<FI>| *a == run.init_fn() && #[trigger] call_ensures(mapper, (a,), res.init_fn()),
        res.acc_fn() == run.acc_fn(),
        res.fin_fn() == run.fin_fn(),
{
    let orig = run.impl_init.clone();
    assert(*orig == run.init_fn());
    let ghost a = orig;
    let g = mapper(orig);
    let res = Fold {
        impl_init: Arc::new(g),
        impl_accumulate: run.impl_accumulate.clone(),
        impl_finalize: run.impl_finalize.clone(),
    };
    assert(call_ensures(mapper, (a,), res.init_fn()));
    res
}

/// Replaces the accumulate phase of `run` by what `mapper` returns when
/// handed the current accumulate; init and finalize are kept.
pub fn map_accumulate<FI, FA, FF, G, M>(run: &Fold<FI, FA, FF>, mapper: M) -> (res: Fold<FI, G, FF>)
    where M: FnOnce(Arc<FA>) -> G,
    requires
        forall|a: Arc<FA>| *a == run.acc_fn() ==> #[trigger] call_requires(mapper, (a,)),
    ensures
        exists|a: Arc<FA>| *a == run.acc_fn() && #[trigger] call_ensures(mapper, (a,), res.acc_fn()),
        res.init_fn() == run.init_fn(),
        res.fin_fn() == run.fin_fn(),
{
    let orig = run.impl_accumulate.clone();
    assert(*orig == run.acc_fn());
    let ghost a = orig;
    let g = mapper(orig);
    let res = Fold {
        impl_init: run.impl_init.clone(),
        impl_accumulate: Arc::new(g),
        impl_finalize: run.impl_finalize.clone(),
    };
    assert(call_ensures(mapper, (a,), res.acc_fn()));
    res
}

/// Replaces the finalize phase of `run` by what `mapper` returns when handed
/// the current finalize; init and accumulate are kept.
pub fn map_finalize<FI, FA, FF, G, M>(run: &Fold<FI, FA, FF>, mapper: M) -> (res: Fold<FI, FA, G>)
    where M: FnOnce(Arc<FF>) -> G,
    requires
        forall|a: Arc<FF>| *a == run.fin_fn() ==> #[trigger] call_requires(mapper, (a,)),
    ensures
        exists|a: Arc<FF>| *a == run.fin_fn() && #[trigger] call_ensures(mapper, (a,), res.fin_fn()),
        res.init_fn() == run.init_fn(),
        res.acc_fn() == run.acc_fn(),
{
    let orig = run.impl_finalize.clone();
    assert(*orig == run.fin_fn());
    let ghost a = orig;
    let g = mapper(orig);
    let res = Fold {
        impl_init: run.impl_init.clone(),
        impl_accumulate: run.impl_accumulate.clone(),
        impl_finalize: Arc::new(g),
    };
    assert(call_ensures(mapper, (a,), res.fin_fn()));
    res
}

} // verus!
