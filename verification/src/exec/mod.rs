//! Executors: strategies that run a fold over a tree. `Exec<D, S>` binds an
//! executor strategy `S` to a boxing domain `D`.
pub mod funnel;
pub mod fused;
pub mod laws;

use std::marker::PhantomData;
use vstd::prelude::*;
use crate::exec::fused::{edges_total, fold_total, hylo_rel, ranked_below, some_rank};
use crate::fold::Fold;
use crate::graph::Edgy;

verus! {

/// An executor strategy `S` bound to the domain `D`.
pub struct Exec<D, S>(pub(crate) S, PhantomData<D>);

impl<D, S> Exec<D, S> {
    /// The strategy.
    pub closed spec fn strategy(&self) -> S {
        self.0
    }

    /// Binds `inner` to the domain `D`.
    pub fn new(inner: S) -> (res: Self)
        ensures res.strategy() == inner,
    {
        Exec(inner, PhantomData)
    }

    /// The strategy.
    pub fn inner(&self) -> (s: &S)
        ensures *s == self.strategy(),
    {
        &self.0
    }

    /// The strategy, taken out.
    pub fn into_inner(self) -> (s: S)
        ensures s == self.strategy(),
    {
        self.0
    }
}

impl<D> Exec<D, fused::Spec> {
    /// Runs `fold` on the tree below `root` with the fused executor: the
    /// result is a fold result of `root` in the sense of [`hylo_rel`].
    pub fn run<N, H, R, FI, FA, FF, F>(&self, fold: &Fold<FI, FA, FF>, graph: &Edgy<F>, root: &N) -> (r: R)
        where FI: Fn(&N) -> H, FA: Fn(&H, &R) -> H, FF: Fn(&H) -> R, F: Fn(&N) -> Vec<N>,
        requires
            fold_total(*fold),
            edges_total(graph.edges_fn()),
            exists|rank: spec_fn(N) -> nat| ranked_below(graph.edges_fn(), rank, *root),
        ensures
            hylo_rel(fold.init_fn(), fold.acc_fn(), fold.fin_fn(), graph.edges_fn(), some_rank(graph.edges_fn(), *root), *root, r),
    {
        self.0.run(fold, graph, root)
    }

    /// Runs `f` in a session of this executor. The fused executor holds no
    /// resources, so its session is the executor itself.
    pub fn session<R, G>(&self, f: G) -> (r: R)
        where G: FnOnce(&Exec<D, fused::Spec>) -> R,
        requires call_requires(f, (self,)),
        ensures call_ensures(f, (self,), r),
    {
        f(self)
    }
}

} // verus!
