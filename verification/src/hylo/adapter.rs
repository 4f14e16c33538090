//! `FoldAdapter`: a `GraphWithFold` that runs itself with the fused executor.
use std::sync::Arc;
use vstd::prelude::*;
use crate::domain::Shared;
use crate::exec::fused::{self, edges_total, fold_total, hylo_rel, ranked_below, some_rank};
use crate::exec::Exec;
use crate::fold::algebra::{result_mapped, result_zipped};
use crate::fold::Fold;
use crate::graph::Graph;
use crate::hylo::graph_with_fold::{top_ranked, top_rel, GraphWithFold};

verus! {

/// A graph with a fold and a top heap, run with the fused executor.
pub struct FoldAdapter<T, U, HT, FI, FA, FF> {
    pub graph_with_raco: GraphWithFold<T, U, HT, FI, FA, FF>,
}

impl<T, U, HT, FI, FA, FF> FoldAdapter<T, U, HT, FI, FA, FF> {
    /// An adapter over the parts of `graph_with_raco`.
    pub fn new(graph_with_raco: &GraphWithFold<T, U, HT, FI, FA, FF>) -> (res: Self)
        ensures
            res.graph_with_raco.graph.treeish.edges_fn() == graph_with_raco.graph.treeish.edges_fn(),
            res.graph_with_raco.graph.top_edgy.edges_fn() == graph_with_raco.graph.top_edgy.edges_fn(),
            res.graph_with_raco.heap_of_top_fn() == graph_with_raco.heap_of_top_fn(),
            res.graph_with_raco.fold_impl.init_fn() == graph_with_raco.fold_impl.init_fn(),
            res.graph_with_raco.fold_impl.acc_fn() == graph_with_raco.fold_impl.acc_fn(),
            res.graph_with_raco.fold_impl.fin_fn() == graph_with_raco.fold_impl.fin_fn(),
    {
        FoldAdapter { graph_with_raco: graph_with_raco.clone() }
    }

    /// An adapter over a graph, a fold and a top heap.
    pub fn new_from_parts(graph: &Graph<T, U>, fold_impl: &Fold<FI, FA, FF>, heap_of_top_fn: HT) -> (res: Self)
        ensures
            res.graph_with_raco.graph.treeish.edges_fn() == graph.treeish.edges_fn(),
            res.graph_with_raco.graph.top_edgy.edges_fn() == graph.top_edgy.edges_fn(),
            res.graph_with_raco.heap_of_top_fn() == heap_of_top_fn,
            res.graph_with_raco.fold_impl.init_fn() == fold_impl.init_fn(),
            res.graph_with_raco.fold_impl.acc_fn() == fold_impl.acc_fn(),
            res.graph_with_raco.fold_impl.fin_fn() == fold_impl.fin_fn(),
    {
        FoldAdapter { graph_with_raco: GraphWithFold::new(graph, fold_impl, heap_of_top_fn) }
    }

    /// The heap the fold starts from at `top`.
    pub fn heap_of_top<Top, H>(&self, top: &Top) -> (h: H)
        where HT: Fn(&Top) -> H,
        requires call_requires(self.graph_with_raco.heap_of_top_fn(), (top,)),
        ensures call_ensures(self.graph_with_raco.heap_of_top_fn(), (top,), h),
    {
        self.graph_with_raco.heap_of_top(top)
    }

    /// Folds the tree below `node` with the fused executor.
    pub fn run_node<N, H, R>(&self, node: &N) -> (r: R)
        where FI: Fn(&N) -> H, FA: Fn(&H, &R) -> H, FF: Fn(&H) -> R, T: Fn(&N) -> Vec<N>,
        requires
            fold_total(self.graph_with_raco.fold_impl),
            edges_total(self.graph_with_raco.graph.treeish.edges_fn()),
            exists|rank: spec_fn(N) -> nat| ranked_below(self.graph_with_raco.graph.treeish.edges_fn(), rank, *node),
        ensures
            hylo_rel(self.graph_with_raco.fold_impl.init_fn(), self.graph_with_raco.fold_impl.acc_fn(),
                self.graph_with_raco.fold_impl.fin_fn(), self.graph_with_raco.graph.treeish.edges_fn(),
                some_rank(self.graph_with_raco.graph.treeish.edges_fn(), *node), *node, r),
    {
        fused::Spec.run(&self.graph_with_raco.fold_impl, &self.graph_with_raco.graph.treeish, node)
    }

    /// The whole computation at `top`, with the fused executor.
    pub fn run_top<Top, N, H, R>(&self, top: &Top) -> (r: R)
        where
            HT: Fn(&Top) -> H, U: Fn(&Top) -> Vec<N>,
            FI: Fn(&N) -> H, FA: Fn(&H, &R) -> H, FF: Fn(&H) -> R, T: Fn(&N) -> Vec<N>,
        requires
            fold_total(self.graph_with_raco.fold_impl),
            edges_total(self.graph_with_raco.graph.treeish.edges_fn()),
            call_requires(self.graph_with_raco.heap_of_top_fn(), (top,)),
            call_requires(self.graph_with_raco.graph.top_edgy.edges_fn(), (top,)),
            top_ranked(self.graph_with_raco.graph.top_edgy.edges_fn(), self.graph_with_raco.graph.treeish.edges_fn(), *top),
        ensures
            top_rel(self.graph_with_raco.heap_of_top_fn(), self.graph_with_raco.graph.top_edgy.edges_fn(),
                self.graph_with_raco.fold_impl.init_fn(), self.graph_with_raco.fold_impl.acc_fn(),
                self.graph_with_raco.fold_impl.fin_fn(), self.graph_with_raco.graph.treeish.edges_fn(), *top, r),
    {
        let exec: Exec<Shared, fused::Spec> = Exec::new(fused::Spec);
        self.graph_with_raco.run(&exec, top)
    }

    /// Replaces the heap of a top by what `mapper` makes of it.
    pub fn map_heap_of_top<HT2, M>(&self, mapper: M) -> (res: FoldAdapter<T, U, HT2, FI, FA, FF>)
        where M: FnOnce(Arc<HT>) -> HT2,
        requires
            forall|a: Arc<HT>| *a == self.graph_with_raco.heap_of_top_fn() ==> #[trigger] call_requires(mapper, (a,)),
        ensures
            exists|a: Arc<HT>| *a == self.graph_with_raco.heap_of_top_fn()
                && #[trigger] call_ensures(mapper, (a,), res.graph_with_raco.heap_of_top_fn()),
            res.graph_with_raco.graph.treeish.edges_fn() == self.graph_with_raco.graph.treeish.edges_fn(),
            res.graph_with_raco.graph.top_edgy.edges_fn() == self.graph_with_raco.graph.top_edgy.edges_fn(),
            res.graph_with_raco.fold_impl.init_fn() == self.graph_with_raco.fold_impl.init_fn(),
            res.graph_with_raco.fold_impl.acc_fn() == self.graph_with_raco.fold_impl.acc_fn(),
            res.graph_with_raco.fold_impl.fin_fn() == self.graph_with_raco.fold_impl.fin_fn(),
    {
        let g = self.graph_with_raco.map_heap_of_top(mapper);
        let ghost g0 = g;
        let res = FoldAdapter { graph_with_raco: g };
        assert(res.graph_with_raco == g0);
        res
    }

    /// Replaces the graph by what `mapper` makes of it.
    pub fn map_graph<T2, U2, M>(&self, mapper: M) -> (res: FoldAdapter<T2, U2, HT, FI, FA, FF>)
        where M: FnOnce(Graph<T, U>) -> Graph<T2, U2>,
        requires
            forall|g: Graph<T, U>|
                g.treeish.edges_fn() == self.graph_with_raco.graph.treeish.edges_fn()
                && g.top_edgy.edges_fn() == self.graph_with_raco.graph.top_edgy.edges_fn()
                ==> #[trigger] call_requires(mapper, (g,)),
        ensures
            exists|g: Graph<T, U>|
                g.treeish.edges_fn() == self.graph_with_raco.graph.treeish.edges_fn()
                && g.top_edgy.edges_fn() == self.graph_with_raco.graph.top_edgy.edges_fn()
                && #[trigger] call_ensures(mapper, (g,), res.graph_with_raco.graph),
            res.graph_with_raco.heap_of_top_fn() == self.graph_with_raco.heap_of_top_fn(),
            res.graph_with_raco.fold_impl.init_fn() == self.graph_with_raco.fold_impl.init_fn(),
            res.graph_with_raco.fold_impl.acc_fn() == self.graph_with_raco.fold_impl.acc_fn(),
            res.graph_with_raco.fold_impl.fin_fn() == self.graph_with_raco.fold_impl.fin_fn(),
    {
        let g = self.graph_with_raco.map_graph(mapper);
        let ghost g0 = g;
        let res = FoldAdapter { graph_with_raco: g };
        assert(res.graph_with_raco == g0);
        res
    }

    /// Replaces the fold by what `mapper` makes of it.
    pub fn map_fold<GI, GA, GF, M>(&self, mapper: M) -> (res: FoldAdapter<T, U, HT, GI, GA, GF>)
        where M: FnOnce(Fold<FI, FA, FF>) -> Fold<GI, GA, GF>,
        requires
            forall|f: Fold<FI, FA, FF>|
                f.init_fn() == self.graph_with_raco.fold_impl.init_fn() && f.acc_fn() == self.graph_with_raco.fold_impl.acc_fn()
                && f.fin_fn() == self.graph_with_raco.fold_impl.fin_fn() ==> #[trigger] call_requires(mapper, (f,)),
        ensures
            exists|f: Fold<FI, FA, FF>|
                f.init_fn() == self.graph_with_raco.fold_impl.init_fn() && f.acc_fn() == self.graph_with_raco.fold_impl.acc_fn()
                && f.fin_fn() == self.graph_with_raco.fold_impl.fin_fn()
                && #[trigger] call_ensures(mapper, (f,), res.graph_with_raco.fold_impl),
            res.graph_with_raco.heap_of_top_fn() == self.graph_with_raco.heap_of_top_fn(),
            res.graph_with_raco.graph.treeish.edges_fn() == self.graph_with_raco.graph.treeish.edges_fn(),
            res.graph_with_raco.graph.top_edgy.edges_fn() == self.graph_with_raco.graph.top_edgy.edges_fn(),
    {
        let g = self.graph_with_raco.map_fold(mapper);
        let ghost g0 = g;
        let res = FoldAdapter { graph_with_raco: g };
        assert(res.graph_with_raco == g0);
        res
    }

    /// Changes the result type with a forward and a backward map.
    pub fn map<N, H, R, RNew, M, B>(&self, mapper: M, backmapper: B)
        -> (res: FoldAdapter<T, U, HT, FI, impl Fn(&H, &RNew) -> H, impl Fn(&H) -> RNew>)
        where FI: Fn(&N) -> H, FA: Fn(&H, &R) -> H, FF: Fn(&H) -> R, M: Fn(&R) -> RNew, B: Fn(&RNew) -> R,
        ensures
            res.graph_with_raco.fold_impl.init_fn() == self.graph_with_raco.fold_impl.init_fn(),
            result_mapped(self.graph_with_raco.fold_impl.acc_fn(), self.graph_with_raco.fold_impl.fin_fn(),
                mapper, backmapper, res.graph_with_raco.fold_impl.acc_fn(), res.graph_with_raco.fold_impl.fin_fn()),
            res.graph_with_raco.heap_of_top_fn() == self.graph_with_raco.heap_of_top_fn(),
            res.graph_with_raco.graph.treeish.edges_fn() == self.graph_with_raco.graph.treeish.edges_fn(),
            res.graph_with_raco.graph.top_edgy.edges_fn() == self.graph_with_raco.graph.top_edgy.edges_fn(),
    {
        FoldAdapter { graph_with_raco: self.graph_with_raco.map(mapper, backmapper) }
    }

    /// Pairs each result with `mapper` of it.
    pub fn zipmap<N, H, R, RZip, M>(&self, mapper: M)
        -> (res: FoldAdapter<T, U, HT, FI, impl Fn(&H, &(R, RZip)) -> H, impl Fn(&H) -> (R, RZip)>)
        where FI: Fn(&N) -> H, FA: Fn(&H, &R) -> H, FF: Fn(&H) -> R, M: Fn(&R) -> RZip,
        ensures
            res.graph_with_raco.fold_impl.init_fn() == self.graph_with_raco.fold_impl.init_fn(),
            result_zipped(self.graph_with_raco.fold_impl.acc_fn(), self.graph_with_raco.fold_impl.fin_fn(),
                mapper, res.graph_with_raco.fold_impl.acc_fn(), res.graph_with_raco.fold_impl.fin_fn()),
            res.graph_with_raco.heap_of_top_fn() == self.graph_with_raco.heap_of_top_fn(),
            res.graph_with_raco.graph.treeish.edges_fn() == self.graph_with_raco.graph.treeish.edges_fn(),
            res.graph_with_raco.graph.top_edgy.edges_fn() == self.graph_with_raco.graph.top_edgy.edges_fn(),
    {
        FoldAdapter { graph_with_raco: self.graph_with_raco.zipmap(mapper) }
    }
}

} // verus!
