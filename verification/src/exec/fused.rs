//! The fused executor: a sequential depth-first hylomorphism. At each node
//! it builds the heap, runs each child to its result and folds it in, in
//! order, then finalizes.
use vstd::prelude::*;
use crate::fold::Fold;
use crate::graph::Edgy;

verus! {

/// `rank` strictly decreases from `n` to each of its children, and so on
/// below each child: the tree unfolded from `n` is finite. Nodes that `n`
/// does not reach are not constrained.
pub open spec fn ranked_below<N, F: Fn(&N) -> Vec<N>>(edges: F, rank: spec_fn(N) -> nat, n: N) -> bool
    decreases rank(n),
{
    forall|kids: Vec<N>, i: int|
        #[trigger] call_ensures(edges, (&n,), kids) && 0 <= i < kids.len() ==>
            rank(kids@[i]) < rank(n) && ranked_below(edges, rank, #[trigger] kids@[i])
}

/// Some rank under which the tree unfolded from `root` is finite, if there is one.
pub open spec fn some_rank<N, F: Fn(&N) -> Vec<N>>(edges: F, root: N) -> spec_fn(N) -> nat {
    choose|rank: spec_fn(N) -> nat| ranked_below(edges, rank, root)
}

/// `hs` is the run of `acc` that starts at `h0` and folds in the results
/// `rs` one by one: `hs[0] == h0` and `hs[i + 1]` is an answer of `acc` on
/// `(hs[i], rs[i])`.
pub open spec fn acc_chain<H, R, FA: Fn(&H, &R) -> H>(acc: FA, h0: H, rs: Seq<R>, hs: Seq<H>) -> bool {
    &&& hs.len() == rs.len() + 1
    &&& hs[0] == h0
    &&& forall|i: int| 0 <= i < rs.len() ==> #[trigger] call_ensures(acc, (&hs[i], &rs[i]), hs[i + 1])
}

/// `r` is a result of folding the tree below `n`: the heap is `init(n)`, the
/// results of the children (each itself a result of folding below it) are
/// accumulated into it in order, and `r` is what finalize makes of the last
/// heap.
pub open spec fn hylo_rel<N, H, R, FI, FA, FF, F>(
    init: FI,
    acc: FA,
    fin: FF,
    edges: F,
    rank: spec_fn(N) -> nat,
    n: N,
    r: R,
) -> bool
    where FI: Fn(&N) -> H, FA: Fn(&H, &R) -> H, FF: Fn(&H) -> R, F: Fn(&N) -> Vec<N>,
    decreases rank(n),
    when ranked_below(edges, rank, n)
{
    exists|h0: H, kids: Vec<N>, rs: Seq<R>, hs: Seq<H>|
        #![trigger call_ensures(init, (&n,), h0), call_ensures(edges, (&n,), kids), acc_chain(acc, h0, rs, hs)]
        call_ensures(init, (&n,), h0)
        && call_ensures(edges, (&n,), kids)
        && rs.len() == kids.len()
        && acc_chain(acc, h0, rs, hs)
        && call_ensures(fin, (&hs.last(),), r)
        && forall|i: int| 0 <= i < kids.len() ==> hylo_rel(init, acc, fin, edges, rank, #[trigger] kids@[i], rs[i])
}

/// One step of [`hylo_rel`]: a fold result of `n` comes from a heap of `n`,
/// the edges of `n`, fold results of those children and an accumulate run
/// over them, finalized.
pub proof fn hylo_rel_unfold<N, H, R, FI, FA, FF, F>(
    init: FI,
    acc: FA,
    fin: FF,
    edges: F,
    rank: spec_fn(N) -> nat,
    n: N,
    r: R,
) -> (w: (H, Vec<N>, Seq<R>, Seq<H>))
    where FI: Fn(&N) -> H, FA: Fn(&H, &R) -> H, FF: Fn(&H) -> R, F: Fn(&N) -> Vec<N>,
    requires
        ranked_below(edges, rank, n),
        hylo_rel(init, acc, fin, edges, rank, n, r),
    ensures
        call_ensures(init, (&n,), w.0),
        call_ensures(edges, (&n,), w.1),
        w.2.len() == w.1.len(),
        acc_chain(acc, w.0, w.2, w.3),
        call_ensures(fin, (&w.3.last(),), r),
        forall|i: int| 0 <= i < w.1.len() ==> hylo_rel(init, acc, fin, edges, rank, #[trigger] w.1@[i], w.2[i]),
{
    choose|h0: H, kids: Vec<N>, rs: Seq<R>, hs: Seq<H>|
        #![trigger call_ensures(init, (&n,), h0), call_ensures(edges, (&n,), kids), acc_chain(acc, h0, rs, hs)]
        call_ensures(init, (&n,), h0)
        && call_ensures(edges, (&n,), kids)
        && rs.len() == kids.len()
        && acc_chain(acc, h0, rs, hs)
        && call_ensures(fin, (&hs.last(),), r)
        && forall|i: int| 0 <= i < kids.len() ==> hylo_rel(init, acc, fin, edges, rank, #[trigger] kids@[i], rs[i])
}

/// Every phase of `fold` may be called on every argument.
pub open spec fn fold_total<N, H, R, FI, FA, FF>(fold: Fold<FI, FA, FF>) -> bool
    where FI: Fn(&N) -> H, FA: Fn(&H, &R) -> H, FF: Fn(&H) -> R,
{
    &&& forall|n: &N| #[trigger] call_requires(fold.init_fn(), (n,))
    &&& forall|h: &H, r: &R| #[trigger] call_requires(fold.acc_fn(), (h, r))
    &&& forall|h: &H| #[trigger] call_requires(fold.fin_fn(), (h,))
}

/// The edge function may be called on every node.
pub open spec fn edges_total<N, E, F: Fn(&N) -> Vec<E>>(edges: F) -> bool {
    forall|n: &N| #[trigger] call_requires(edges, (n,))
}

/// The fused executor.
#[derive(Clone, Copy, Debug, Default)]
pub struct Spec;

impl Spec {
    /// Folds the tree below `root` depth first: the result is a fold result
    /// of `root` in the sense of [`hylo_rel`].
    pub fn run<N, H, R, FI, FA, FF, F>(&self, fold: &Fold<FI, FA, FF>, graph: &Edgy<F>, root: &N) -> (r: R)
        where FI: Fn(&N) -> H, FA: Fn(&H, &R) -> H, FF: Fn(&H) -> R, F: Fn(&N) -> Vec<N>,
        requires
            fold_total(*fold),
            edges_total(graph.edges_fn()),
            exists|rank: spec_fn(N) -> nat| ranked_below(graph.edges_fn(), rank, *root),
        ensures
            hylo_rel(fold.init_fn(), fold.acc_fn(), fold.fin_fn(), graph.edges_fn(), some_rank(graph.edges_fn(), *root), *root, r),
    {
        run_node(fold, graph, root, Ghost(some_rank(graph.edges_fn(), *root)))
    }
}

fn run_node<N, H, R, FI, FA, FF, F>(
    fold: &Fold<FI, FA, FF>,
    graph: &Edgy<F>,
    node: &N,
    Ghost(rank): Ghost<spec_fn(N) -> nat>,
) -> (r: R)
    where FI: Fn(&N) -> H, FA: Fn(&H, &R) -> H, FF: Fn(&H) -> R, F: Fn(&N) -> Vec<N>,
    requires
        fold_total(*fold),
        edges_total(graph.edges_fn()),
        ranked_below(graph.edges_fn(), rank, *node),
    ensures
        hylo_rel(fold.init_fn(), fold.acc_fn(), fold.fin_fn(), graph.edges_fn(), rank, *node, r),
    decreases rank(*node),
{
    let mut heap = fold.init(node);
    let kids = graph.apply(node);
    let ghost h0 = heap;
    let ghost mut rs: Seq<R> = Seq::empty();
    let ghost mut hs: Seq<H> = seq![heap];
    let mut i: usize = 0;
    while i < kids.len()
        invariant
            fold_total(*fold),
            edges_total(graph.edges_fn()),
            ranked_below(graph.edges_fn(), rank, *node),
            call_ensures(graph.edges_fn(), (node,), kids),
            i <= kids.len(),
            rs.len() == i,
            acc_chain(fold.acc_fn(), h0, rs, hs),
            hs.last() == heap,
            forall|j: int| 0 <= j < i ==>
                hylo_rel(fold.init_fn(), fold.acc_fn(), fold.fin_fn(), graph.edges_fn(), rank, #[trigger] kids@[j], rs[j]),
        decreases kids.len() - i,
    {
        assert(rank(kids@[i as int]) < rank(*node));
        let r = run_node(fold, graph, &kids[i], Ghost(rank));
        fold.accumulate(&mut heap, &r);
        proof {
            let hs_old = hs;
            rs = rs.push(r);
            hs = hs.push(heap);
            assert forall|j: int| 0 <= j < rs.len() implies
                #[trigger] call_ensures(fold.acc_fn(), (&hs[j], &rs[j]), hs[j + 1]) by {
                if j < rs.len() - 1 {
                    assert(hs[j] == hs_old[j] && hs[j + 1] == hs_old[j + 1]);
                }
            }
        }
        i += 1;
    }
    let r = fold.finalize(&heap);
    assert(call_ensures(fold.init_fn(), (node,), h0));
    assert(acc_chain(fold.acc_fn(), h0, rs, hs));
    r
}

} // verus!
