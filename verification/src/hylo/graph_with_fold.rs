use std::sync::Arc;
use vstd::prelude::*;
use crate::exec::fused::{self, acc_chain, edges_total, fold_total, hylo_rel, ranked_below, some_rank};
use crate::exec::Exec;
use crate::exec::funnel::cps::chain::chain_result;
use crate::fold::algebra::{result_mapped, result_zipped};
use crate::fold::Fold;
use crate::graph::{Either, Graph};

verus! {

/// `r` is a result of the whole computation at `top`: the heap is
/// `heap_of_top(top)`, the fold results of the nodes that the top edges give
/// (each under a rank that makes the tree below it finite) are accumulated
/// into it in order, and `r` is what finalize makes of the last heap.
pub open spec fn top_rel<Top, N, H, R, HT, U, FI, FA, FF, T>(
    heap_of_top: HT,
    top_edges: U,
    init: FI,
    acc: FA,
    fin: FF,
    edges: T,
    top: Top,
    r: R,
) -> bool
    where
        HT: Fn(&Top) -> H, U: Fn(&Top) -> Vec<N>,
        FI: Fn(&N) -> H, FA: Fn(&H, &R) -> H, FF: Fn(&H) -> R, T: Fn(&N) -> Vec<N>,
{
    exists|h0: H, kids: Vec<N>, rs: Seq<R>, hs: Seq<H>|
        #![trigger call_ensures(heap_of_top, (&top,), h0), call_ensures(top_edges, (&top,), kids), acc_chain(acc, h0, rs, hs)]
        call_ensures(heap_of_top, (&top,), h0)
        && call_ensures(top_edges, (&top,), kids)
        && rs.len() == kids.len()
        && acc_chain(acc, h0, rs, hs)
        && call_ensures(fin, (&hs.last(),), r)
        && forall|i: int| 0 <= i < kids.len() ==> hylo_rel(init, acc, fin, edges, some_rank(edges, kids@[i]), #[trigger] kids@[i], rs[i])
}

/// The whole computation at a top is one fold step of a root whose heap is
/// the top's heap and whose children are the top edges: there are entry
/// nodes `kids` (an answer of the top edges), each `rs[i]` is a fold result of
/// `kids[i]`, and `r` is what accumulating `rs` into the top's heap in
/// top-edge order and finalizing gives.
pub proof fn top_run_is_root_step<Top, N, H, R, HT, U, FI, FA, FF, T>(
    heap_of_top: HT,
    top_edges: U,
    init: FI,
    acc: FA,
    fin: FF,
    edges: T,
    top: Top,
    r: R,
)
    where
        HT: Fn(&Top) -> H, U: Fn(&Top) -> Vec<N>,
        FI: Fn(&N) -> H, FA: Fn(&H, &R) -> H, FF: Fn(&H) -> R, T: Fn(&N) -> Vec<N>,
    requires
        top_rel(heap_of_top, top_edges, init, acc, fin, edges, top, r),
    ensures
        exists|h0: H, kids: Vec<N>, rs: Seq<R>|
            #![trigger call_ensures(heap_of_top, (&top,), h0), call_ensures(top_edges, (&top,), kids), chain_result(acc, fin, h0, rs, r)]
            call_ensures(heap_of_top, (&top,), h0)
            && call_ensures(top_edges, (&top,), kids)
            && rs.len() == kids.len()
            && (forall|i: int| 0 <= i < kids.len() ==>
                hylo_rel(init, acc, fin, edges, some_rank(edges, kids@[i]), #[trigger] kids@[i], rs[i]))
            && chain_result(acc, fin, h0, rs, r),
{
    let (h0, kids, rs, hs) = choose|h0: H, kids: Vec<N>, rs: Seq<R>, hs: Seq<H>|
        #![trigger call_ensures(heap_of_top, (&top,), h0), call_ensures(top_edges, (&top,), kids), acc_chain(acc, h0, rs, hs)]
        call_ensures(heap_of_top, (&top,), h0)
        && call_ensures(top_edges, (&top,), kids)
        && rs.len() == kids.len()
        && acc_chain(acc, h0, rs, hs)
        && call_ensures(fin, (&hs.last(),), r)
        && forall|i: int| 0 <= i < kids.len() ==> hylo_rel(init, acc, fin, edges, some_rank(edges, kids@[i]), #[trigger] kids@[i], rs[i]);
    assert(chain_result(acc, fin, h0, rs, r));
}

/// The tree unfolded from every node that the top edges give at `top` is finite.
pub open spec fn top_ranked<Top, N, U, T>(top_edges: U, edges: T, top: Top) -> bool
    where U: Fn(&Top) -> Vec<N>, T: Fn(&N) -> Vec<N>,
{
    forall|kids: Vec<N>, i: int| #[trigger] call_ensures(top_edges, (&top,), kids) && 0 <= i < kids.len() ==>
        exists|rank: spec_fn(N) -> nat| ranked_below(edges, rank, #[trigger] kids@[i])
}

/// A graph with a top-level entry, a fold over its nodes, and the heap the
/// fold starts from at a top.
pub struct GraphWithFold<T, U, HT, FI, FA, FF> {
    pub graph: Graph<T, U>,
    pub impl_heap_of_top: Arc<HT>,
    pub fold_impl: Fold<FI, FA, FF>,
}

impl<T, U, HT, FI, FA, FF> GraphWithFold<T, U, HT, FI, FA, FF> {
    /// The heap of a top.
    pub closed spec fn heap_of_top_fn(&self) -> HT {
        *self.impl_heap_of_top
    }

    /// Builds the computation from its parts.
    pub fn new(graph: &Graph<T, U>, fold_impl: &Fold<FI, FA, FF>, heap_of_top_fn: HT) -> (res: Self)
        ensures
            res.graph.treeish.edges_fn() == graph.treeish.edges_fn(),
            res.graph.top_edgy.edges_fn() == graph.top_edgy.edges_fn(),
            res.heap_of_top_fn() == heap_of_top_fn,
            res.fold_impl.init_fn() == fold_impl.init_fn(),
            res.fold_impl.acc_fn() == fold_impl.acc_fn(),
            res.fold_impl.fin_fn() == fold_impl.fin_fn(),
    {
        GraphWithFold {
            graph: graph.clone(),
            impl_heap_of_top: Arc::new(heap_of_top_fn),
            fold_impl: fold_impl.clone(),
        }
    }

    /// The heap the fold starts from at `top`.
    pub fn heap_of_top<Top, H>(&self, top: &Top) -> (h: H)
        where HT: Fn(&Top) -> H,
        requires call_requires(self.heap_of_top_fn(), (top,)),
        ensures call_ensures(self.heap_of_top_fn(), (top,), h),
    {
        (self.impl_heap_of_top)(top)
    }

    /// Folds the tree below `node` with `exec`.
    pub fn run_node<D, N, H, R>(&self, exec: &Exec<D, fused::Spec>, node: &N) -> (r: R)
        where FI: Fn(&N) -> H, FA: Fn(&H, &R) -> H, FF: Fn(&H) -> R, T: Fn(&N) -> Vec<N>,
        requires
            fold_total(self.fold_impl),
            edges_total(self.graph.treeish.edges_fn()),
            exists|rank: spec_fn(N) -> nat| ranked_below(self.graph.treeish.edges_fn(), rank, *node),
        ensures
            hylo_rel(self.fold_impl.init_fn(), self.fold_impl.acc_fn(), self.fold_impl.fin_fn(),
                self.graph.treeish.edges_fn(), some_rank(self.graph.treeish.edges_fn(), *node), *node, r),
    {
        exec.run(&self.fold_impl, &self.graph.treeish, node)
    }

    /// Folds the tree below the valid node `node`, taken as the node
    /// `Right` of a clone of it, in a graph whose nodes are valid or errors.
    pub fn run_valid<D, NE, NV: Clone, H, R>(&self, exec: &Exec<D, fused::Spec>, node: &NV) -> (r: R)
        where
            FI: Fn(&Either<NE, NV>) -> H, FA: Fn(&H, &R) -> H, FF: Fn(&H) -> R,
            T: Fn(&Either<NE, NV>) -> Vec<Either<NE, NV>>,
        requires
            fold_total(self.fold_impl),
            edges_total(self.graph.treeish.edges_fn()),
            forall|c: NV| #[trigger] cloned::<NV>(*node, c) ==>
                exists|rank: spec_fn(Either<NE, NV>) -> nat| ranked_below(self.graph.treeish.edges_fn(), rank, Either::<NE, NV>::Right(c)),
        ensures
            exists|c: NV| #[trigger] cloned::<NV>(*node, c) && hylo_rel(self.fold_impl.init_fn(), self.fold_impl.acc_fn(),
                self.fold_impl.fin_fn(), self.graph.treeish.edges_fn(),
                some_rank(self.graph.treeish.edges_fn(), Either::<NE, NV>::Right(c)), Either::<NE, NV>::Right(c), r),
    {
        let c = node.clone();
        let ghost c0 = c;
        assert(cloned::<NV>(*node, c0));
        let n: Either<NE, NV> = Either::Right(c);
        let r = self.run_node(exec, &n);
        r
    }

    /// The whole computation at `top`: the heap of `top`, into which the
    /// result of each node that the top edges give is folded, finalized.
    pub fn run<D, Top, N, H, R>(&self, exec: &Exec<D, fused::Spec>, top: &Top) -> (r: R)
        where
            HT: Fn(&Top) -> H, U: Fn(&Top) -> Vec<N>,
            FI: Fn(&N) -> H, FA: Fn(&H, &R) -> H, FF: Fn(&H) -> R, T: Fn(&N) -> Vec<N>,
        requires
            fold_total(self.fold_impl),
            edges_total(self.graph.treeish.edges_fn()),
            call_requires(self.heap_of_top_fn(), (top,)),
            call_requires(self.graph.top_edgy.edges_fn(), (top,)),
            top_ranked(self.graph.top_edgy.edges_fn(), self.graph.treeish.edges_fn(), *top),
        ensures
            top_rel(self.heap_of_top_fn(), self.graph.top_edgy.edges_fn(),
                self.fold_impl.init_fn(), self.fold_impl.acc_fn(), self.fold_impl.fin_fn(),
                self.graph.treeish.edges_fn(), *top, r),
    {
        let mut heap = self.heap_of_top(top);
        let kids = self.graph.top_edgy.apply(top);
        let ghost h0 = heap;
        let ghost mut rs: Seq<R> = Seq::empty();
        let ghost mut hs: Seq<H> = seq![heap];
        let mut i: usize = 0;
        while i < kids.len()
            invariant
                fold_total(self.fold_impl),
                edges_total(self.graph.treeish.edges_fn()),
                top_ranked(self.graph.top_edgy.edges_fn(), self.graph.treeish.edges_fn(), *top),
                call_ensures(self.graph.top_edgy.edges_fn(), (top,), kids),
                i <= kids.len(),
                rs.len() == i,
                acc_chain(self.fold_impl.acc_fn(), h0, rs, hs),
                hs.last() == heap,
                forall|j: int| 0 <= j < i ==>
                    hylo_rel(self.fold_impl.init_fn(), self.fold_impl.acc_fn(), self.fold_impl.fin_fn(),
                        self.graph.treeish.edges_fn(), some_rank(self.graph.treeish.edges_fn(), kids@[j]), #[trigger] kids@[j], rs[j]),
            decreases kids.len() - i,
        {
            assert(exists|rank: spec_fn(N) -> nat| ranked_below(self.graph.treeish.edges_fn(), rank, kids@[i as int])) by {
                assert(call_ensures(self.graph.top_edgy.edges_fn(), (&*top,), kids));
                let k = kids@[i as int];
            }
            let r = exec.run(&self.fold_impl, &self.graph.treeish, &kids[i]);
            self.fold_impl.accumulate(&mut heap, &r);
            proof {
                let hs_old = hs;
                rs = rs.push(r);
                hs = hs.push(heap);
                assert forall|j: int| 0 <= j < rs.len() implies
                    #[trigger] call_ensures(self.fold_impl.acc_fn(), (&hs[j], &rs[j]), hs[j + 1]) by {
                    if j < rs.len() - 1 {
                        assert(hs[j] == hs_old[j] && hs[j + 1] == hs_old[j + 1]);
                    }
                }
            }
            i += 1;
        }
        let r = self.fold_impl.finalize(&heap);
        assert(call_ensures(self.heap_of_top_fn(), (top,), h0));
        assert(acc_chain(self.fold_impl.acc_fn(), h0, rs, hs));
        r
    }

    /// Replaces the heap of a top by what `mapper` makes of it.
    pub fn map_heap_of_top<HT2, M>(&self, mapper: M) -> (res: GraphWithFold<T, U, HT2, FI, FA, FF>)
        where M: FnOnce(Arc<HT>) -> HT2,
        requires
            forall|a: Arc<HT>| *a == self.heap_of_top_fn() ==> #[trigger] call_requires(mapper, (a,)),
        ensures
            exists|a: Arc<HT>| *a == self.heap_of_top_fn() && #[trigger] call_ensures(mapper, (a,), res.heap_of_top_fn()),
            res.graph.treeish.edges_fn() == self.graph.treeish.edges_fn(),
            res.graph.top_edgy.edges_fn() == self.graph.top_edgy.edges_fn(),
            res.fold_impl.init_fn() == self.fold_impl.init_fn(),
            res.fold_impl.acc_fn() == self.fold_impl.acc_fn(),
            res.fold_impl.fin_fn() == self.fold_impl.fin_fn(),
    {
        let orig = self.impl_heap_of_top.clone();
        assert(*orig == self.heap_of_top_fn());
        let ghost a = orig;
        let h = mapper(orig);
        let res = GraphWithFold { graph: self.graph.clone(), impl_heap_of_top: Arc::new(h), fold_impl: self.fold_impl.clone() };
        assert(call_ensures(mapper, (a,), res.heap_of_top_fn()));
        res
    }

    /// Replaces the graph by what `mapper` makes of it.
    pub fn map_graph<T2, U2, M>(&self, mapper: M) -> (res: GraphWithFold<T2, U2, HT, FI, FA, FF>)
        where M: FnOnce(Graph<T, U>) -> Graph<T2, U2>,
        requires
            forall|g: Graph<T, U>|
                g.treeish.edges_fn() == self.graph.treeish.edges_fn() && g.top_edgy.edges_fn() == self.graph.top_edgy.edges_fn()
                ==> #[trigger] call_requires(mapper, (g,)),
        ensures
            exists|g: Graph<T, U>|
                g.treeish.edges_fn() == self.graph.treeish.edges_fn() && g.top_edgy.edges_fn() == self.graph.top_edgy.edges_fn()
                && #[trigger] call_ensures(mapper, (g,), res.graph),
            res.heap_of_top_fn() == self.heap_of_top_fn(),
            res.fold_impl.init_fn() == self.fold_impl.init_fn(),
            res.fold_impl.acc_fn() == self.fold_impl.acc_fn(),
            res.fold_impl.fin_fn() == self.fold_impl.fin_fn(),
    {
        let g = self.graph.clone();
        let ghost g0 = g;
        let graph = mapper(g);
        let res = GraphWithFold { graph, impl_heap_of_top: self.impl_heap_of_top.clone(), fold_impl: self.fold_impl.clone() };
        assert(call_ensures(mapper, (g0,), res.graph));
        assert(res.heap_of_top_fn() == self.heap_of_top_fn());
        res
    }

    /// Replaces the fold by what `mapper` makes of it.
    pub fn map_fold<GI, GA, GF, M>(&self, mapper: M) -> (res: GraphWithFold<T, U, HT, GI, GA, GF>)
        where M: FnOnce(Fold<FI, FA, FF>) -> Fold<GI, GA, GF>,
        requires
            forall|f: Fold<FI, FA, FF>|
                f.init_fn() == self.fold_impl.init_fn() && f.acc_fn() == self.fold_impl.acc_fn()
                && f.fin_fn() == self.fold_impl.fin_fn() ==> #[trigger] call_requires(mapper, (f,)),
        ensures
            exists|f: Fold<FI, FA, FF>|
                f.init_fn() == self.fold_impl.init_fn() && f.acc_fn() == self.fold_impl.acc_fn()
                && f.fin_fn() == self.fold_impl.fin_fn() && #[trigger] call_ensures(mapper, (f,), res.fold_impl),
            res.heap_of_top_fn() == self.heap_of_top_fn(),
            res.graph.treeish.edges_fn() == self.graph.treeish.edges_fn(),
            res.graph.top_edgy.edges_fn() == self.graph.top_edgy.edges_fn(),
    {
        let f = self.fold_impl.clone();
        let ghost f0 = f;
        let fold_impl = mapper(f);
        let res = GraphWithFold { graph: self.graph.clone(), impl_heap_of_top: self.impl_heap_of_top.clone(), fold_impl };
        assert(call_ensures(mapper, (f0,), res.fold_impl));
        assert(res.heap_of_top_fn() == self.heap_of_top_fn());
        res
    }

    /// Changes the result type of the fold with a forward and a backward map
    /// (see [`Fold::map`]); graph and top heap are kept.
    pub fn map<N, H, R, RNew, M, B>(&self, mapper: M, backmapper: B)
        -> (res: GraphWithFold<T, U, HT, FI, impl Fn(&H, &RNew) -> H, impl Fn(&H) -> RNew>)
        where FI: Fn(&N) -> H, FA: Fn(&H, &R) -> H, FF: Fn(&H) -> R, M: Fn(&R) -> RNew, B: Fn(&RNew) -> R,
        ensures
            res.fold_impl.init_fn() == self.fold_impl.init_fn(),
            result_mapped(self.fold_impl.acc_fn(), self.fold_impl.fin_fn(), mapper, backmapper,
                res.fold_impl.acc_fn(), res.fold_impl.fin_fn()),
            res.heap_of_top_fn() == self.heap_of_top_fn(),
            res.graph.treeish.edges_fn() == self.graph.treeish.edges_fn(),
            res.graph.top_edgy.edges_fn() == self.graph.top_edgy.edges_fn(),
    {
        let fold_impl = self.fold_impl.map(mapper, backmapper);
        let res = GraphWithFold { graph: self.graph.clone(), impl_heap_of_top: self.impl_heap_of_top.clone(), fold_impl };
        assert(res.heap_of_top_fn() == self.heap_of_top_fn());
        res
    }

    /// Pairs each result of the fold with `mapper` of it (see
    /// [`Fold::zipmap`]); graph and top heap are kept.
    pub fn zipmap<N, H, R, RZip, M>(&self, mapper: M)
        -> (res: GraphWithFold<T, U, HT, FI, impl Fn(&H, &(R, RZip)) -> H, impl Fn(&H) -> (R, RZip)>)
        where FI: Fn(&N) -> H, FA: Fn(&H, &R) -> H, FF: Fn(&H) -> R, M: Fn(&R) -> RZip,
        ensures
            res.fold_impl.init_fn() == self.fold_impl.init_fn(),
            result_zipped(self.fold_impl.acc_fn(), self.fold_impl.fin_fn(), mapper,
                res.fold_impl.acc_fn(), res.fold_impl.fin_fn()),
            res.heap_of_top_fn() == self.heap_of_top_fn(),
            res.graph.treeish.edges_fn() == self.graph.treeish.edges_fn(),
            res.graph.top_edgy.edges_fn() == self.graph.top_edgy.edges_fn(),
    {
        let fold_impl = self.fold_impl.zipmap(mapper);
        let res = GraphWithFold { graph: self.graph.clone(), impl_heap_of_top: self.impl_heap_of_top.clone(), fold_impl };
        assert(res.heap_of_top_fn() == self.heap_of_top_fn());
        res
    }
}

impl<T, U, HT, FI, FA, FF> Clone for GraphWithFold<T, U, HT, FI, FA, FF> {
    /// Another handle on the same parts.
    fn clone(&self) -> (res: Self)
        ensures
            res.graph.treeish.edges_fn() == self.graph.treeish.edges_fn(),
            res.graph.top_edgy.edges_fn() == self.graph.top_edgy.edges_fn(),
            res.heap_of_top_fn() == self.heap_of_top_fn(),
            res.fold_impl.init_fn() == self.fold_impl.init_fn(),
            res.fold_impl.acc_fn() == self.fold_impl.acc_fn(),
            res.fold_impl.fin_fn() == self.fold_impl.fin_fn(),
    {
        let res = GraphWithFold {
            graph: self.graph.clone(),
            impl_heap_of_top: self.impl_heap_of_top.clone(),
            fold_impl: self.fold_impl.clone(),
        };
        assert(res.heap_of_top_fn() == self.heap_of_top_fn());
        res
    }
}

} // verus!
