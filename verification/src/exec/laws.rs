//! What the fused executor computes for transformed folds.
use vstd::prelude::*;
use crate::exec::fused::{acc_chain, hylo_rel, hylo_rel_unfold, ranked_below};
use crate::exec::funnel::cps::chain::chain_result;
use crate::fold::algebra::{init_contramapped, paired, result_mapped, result_zipped};
use crate::fold::explainer::{described, explained, explained_acc, result_copy, ExplainerHeap, ExplainerResult};
use crate::graph::combinators::seq_mapped;
use crate::graph::edgy::tree_mapped;

verus! {

/// Running the product of two folds gives, at every node, the pair of what
/// each fold gives alone.
pub proof fn product_runs_both<N, H, R, H2, R2, FI, FA, FF, GI, GA, GF, PI, PA, PF, E>(
    fi: FI, fa: FA, ff: FF,
    gi: GI, ga: GA, gf: GF,
    pi: PI, pa: PA, pf: PF,
    edges: E,
    rank: spec_fn(N) -> nat,
    n: N,
    r: (R, R2),
)
    where
        FI: Fn(&N) -> H, FA: Fn(&H, &R) -> H, FF: Fn(&H) -> R,
        GI: Fn(&N) -> H2, GA: Fn(&H2, &R2) -> H2, GF: Fn(&H2) -> R2,
        PI: Fn(&N) -> (H, H2), PA: Fn(&(H, H2), &(R, R2)) -> (H, H2), PF: Fn(&(H, H2)) -> (R, R2),
        E: Fn(&N) -> Vec<N>,
    requires
        paired(fi, fa, ff, gi, ga, gf, pi, pa, pf),
        ranked_below(edges, rank, n),
        hylo_rel(pi, pa, pf, edges, rank, n, r),
    ensures
        hylo_rel(fi, fa, ff, edges, rank, n, r.0),
        hylo_rel(gi, ga, gf, edges, rank, n, r.1),
    decreases rank(n),
{
    let (h0, kids, rs, hs) = choose|h0: (H, H2), kids: Vec<N>, rs: Seq<(R, R2)>, hs: Seq<(H, H2)>|
        #![trigger call_ensures(pi, (&n,), h0), call_ensures(edges, (&n,), kids), acc_chain(pa, h0, rs, hs)]
        call_ensures(pi, (&n,), h0)
        && call_ensures(edges, (&n,), kids)
        && rs.len() == kids.len()
        && acc_chain(pa, h0, rs, hs)
        && call_ensures(pf, (&hs.last(),), r)
        && forall|i: int| 0 <= i < kids.len() ==> hylo_rel(pi, pa, pf, edges, rank, #[trigger] kids@[i], rs[i]);
    let rs1 = rs.map_values(|x: (R, R2)| x.0);
    let rs2 = rs.map_values(|x: (R, R2)| x.1);
    let hs1 = hs.map_values(|x: (H, H2)| x.0);
    let hs2 = hs.map_values(|x: (H, H2)| x.1);
    assert forall|i: int| 0 <= i < kids.len() implies
        hylo_rel(fi, fa, ff, edges, rank, #[trigger] kids@[i], rs1[i]) && hylo_rel(gi, ga, gf, edges, rank, kids@[i], rs2[i]) by {
        assert(rank(kids@[i]) < rank(n));
        product_runs_both(fi, fa, ff, gi, ga, gf, pi, pa, pf, edges, rank, kids@[i], rs[i]);
    }
    assert(acc_chain(fa, h0.0, rs1, hs1)) by {
        assert forall|i: int| 0 <= i < rs1.len() implies #[trigger] call_ensures(fa, (&hs1[i], &rs1[i]), hs1[i + 1]) by {
            assert(call_ensures(pa, (&hs[i], &rs[i]), hs[i + 1]));
        }
    }
    assert(acc_chain(ga, h0.1, rs2, hs2)) by {
        assert forall|i: int| 0 <= i < rs2.len() implies #[trigger] call_ensures(ga, (&hs2[i], &rs2[i]), hs2[i + 1]) by {
            assert(call_ensures(pa, (&hs[i], &rs[i]), hs[i + 1]));
        }
    }
    assert(call_ensures(fi, (&n,), h0.0) && call_ensures(gi, (&n,), h0.1));
    assert(call_ensures(ff, (&hs1.last(),), r.0) && call_ensures(gf, (&hs2.last(),), r.1));
}

/// Running a zipped fold gives, at every node, the pair of what the unzipped
/// fold gives and `mapper` of it.
pub proof fn zipmap_runs_unzipped<N, H, R, RZip, FI, FA, FF, M, ZA, ZF, E>(
    fi: FI, fa: FA, ff: FF,
    mapper: M,
    za: ZA, zf: ZF,
    edges: E,
    rank: spec_fn(N) -> nat,
    n: N,
    out: (R, RZip),
)
    where
        FI: Fn(&N) -> H, FA: Fn(&H, &R) -> H, FF: Fn(&H) -> R, M: Fn(&R) -> RZip,
        ZA: Fn(&H, &(R, RZip)) -> H, ZF: Fn(&H) -> (R, RZip),
        E: Fn(&N) -> Vec<N>,
    requires
        result_zipped(fa, ff, mapper, za, zf),
        ranked_below(edges, rank, n),
        hylo_rel(fi, za, zf, edges, rank, n, out),
    ensures
        hylo_rel(fi, fa, ff, edges, rank, n, out.0),
        call_ensures(mapper, (&out.0,), out.1),
    decreases rank(n),
{
    let (h0, kids, rs, hs) = choose|h0: H, kids: Vec<N>, rs: Seq<(R, RZip)>, hs: Seq<H>|
        #![trigger call_ensures(fi, (&n,), h0), call_ensures(edges, (&n,), kids), acc_chain(za, h0, rs, hs)]
        call_ensures(fi, (&n,), h0)
        && call_ensures(edges, (&n,), kids)
        && rs.len() == kids.len()
        && acc_chain(za, h0, rs, hs)
        && call_ensures(zf, (&hs.last(),), out)
        && forall|i: int| 0 <= i < kids.len() ==> hylo_rel(fi, za, zf, edges, rank, #[trigger] kids@[i], rs[i]);
    let rs1 = rs.map_values(|x: (R, RZip)| x.0);
    assert forall|i: int| 0 <= i < kids.len() implies hylo_rel(fi, fa, ff, edges, rank, #[trigger] kids@[i], rs1[i]) by {
        assert(rank(kids@[i]) < rank(n));
        zipmap_runs_unzipped(fi, fa, ff, mapper, za, zf, edges, rank, kids@[i], rs[i]);
    }
    assert(acc_chain(fa, h0, rs1, hs)) by {
        assert forall|i: int| 0 <= i < rs1.len() implies #[trigger] call_ensures(fa, (&hs[i], &rs1[i]), hs[i + 1]) by {
            assert(call_ensures(za, (&hs[i], &rs[i]), hs[i + 1]));
        }
    }
}

/// `backmapper` undoes `mapper`: mapping a result forward and back gives it again.
pub open spec fn undoes<R, RNew, M, B>(mapper: M, backmapper: B) -> bool
    where M: Fn(&R) -> RNew, B: Fn(&RNew) -> R,
{
    forall|r: R, o: RNew, b: R|
        #[trigger] call_ensures(mapper, (&r,), o) && #[trigger] call_ensures(backmapper, (&o,), b) ==> b == r
}

/// Running a fold whose result type was changed by `mapper`, with a
/// `backmapper` that undoes it, gives at every node `mapper` of what the
/// unmapped fold gives.
pub proof fn map_runs_unmapped<N, H, R, RNew, FI, FA, FF, M, B, MA, MF, E>(
    fi: FI, fa: FA, ff: FF,
    mapper: M,
    backmapper: B,
    ma: MA, mf: MF,
    edges: E,
    rank: spec_fn(N) -> nat,
    n: N,
    out: RNew,
)
    where
        FI: Fn(&N) -> H, FA: Fn(&H, &R) -> H, FF: Fn(&H) -> R, M: Fn(&R) -> RNew, B: Fn(&RNew) -> R,
        MA: Fn(&H, &RNew) -> H, MF: Fn(&H) -> RNew,
        E: Fn(&N) -> Vec<N>,
    requires
        result_mapped(fa, ff, mapper, backmapper, ma, mf),
        undoes(mapper, backmapper),
        ranked_below(edges, rank, n),
        hylo_rel(fi, ma, mf, edges, rank, n, out),
    ensures
        exists|r: R| hylo_rel(fi, fa, ff, edges, rank, n, r) && call_ensures(mapper, (&r,), out),
    decreases rank(n),
{
    let (h0, kids, rs, hs) = choose|h0: H, kids: Vec<N>, rs: Seq<RNew>, hs: Seq<H>|
        #![trigger call_ensures(fi, (&n,), h0), call_ensures(edges, (&n,), kids), acc_chain(ma, h0, rs, hs)]
        call_ensures(fi, (&n,), h0)
        && call_ensures(edges, (&n,), kids)
        && rs.len() == kids.len()
        && acc_chain(ma, h0, rs, hs)
        && call_ensures(mf, (&hs.last(),), out)
        && forall|i: int| 0 <= i < kids.len() ==> hylo_rel(fi, ma, mf, edges, rank, #[trigger] kids@[i], rs[i]);
    let orig = Seq::new(kids.len() as nat, |i: int|
        choose|r: R| hylo_rel(fi, fa, ff, edges, rank, kids@[i], r) && call_ensures(mapper, (&r,), rs[i]));
    assert forall|i: int| 0 <= i < kids.len() implies
        hylo_rel(fi, fa, ff, edges, rank, #[trigger] kids@[i], orig[i]) && call_ensures(mapper, (&orig[i],), rs[i]) by {
        assert(rank(kids@[i]) < rank(n));
        map_runs_unmapped(fi, fa, ff, mapper, backmapper, ma, mf, edges, rank, kids@[i], rs[i]);
    }
    assert(acc_chain(fa, h0, orig, hs)) by {
        assert forall|i: int| 0 <= i < orig.len() implies #[trigger] call_ensures(fa, (&hs[i], &orig[i]), hs[i + 1]) by {
            assert(call_ensures(ma, (&hs[i], &rs[i]), hs[i + 1]));
            let b = choose|b: R| call_ensures(backmapper, (&rs[i],), b) && call_ensures(fa, (&hs[i], &b), hs[i + 1]);
            assert(call_ensures(mapper, (&orig[i],), rs[i]));
            assert(b == orig[i]);
        }
    }
    let r = choose|r: R| call_ensures(ff, (&hs.last(),), r) && call_ensures(mapper, (&r,), out);
    assert(hylo_rel(fi, fa, ff, edges, rank, n, r));
}

/// Moving both the tree and the fold to a new node type along `co` and
/// `contra` (the tree with `treemap(co, contra)`, the fold with
/// `contramap(contra)`), where `contra` undoes `co`, does not change what
/// folding gives: a result at `co(n)` in the moved tree is a result at `n` in
/// the unmoved one.
pub proof fn contramap_on_moved_tree_runs_unmoved<N, NewT, H, R, FI, FA, FF, E, Co, Contra, GI, G>(
    fi: FI, fa: FA, ff: FF,
    edges: E,
    co: Co,
    contra: Contra,
    gi: GI,
    new_edges: G,
    rank: spec_fn(N) -> nat,
    new_rank: spec_fn(NewT) -> nat,
    n: N,
    m: NewT,
    r: R,
)
    where
        FI: Fn(&N) -> H, FA: Fn(&H, &R) -> H, FF: Fn(&H) -> R, E: Fn(&N) -> Vec<N>,
        Co: Fn(&N) -> NewT, Contra: Fn(&NewT) -> N, GI: Fn(&NewT) -> H, G: Fn(&NewT) -> Vec<NewT>,
    requires
        init_contramapped(fi, contra, gi),
        tree_mapped(edges, co, contra, new_edges),
        undoes(co, contra),
        ranked_below(edges, rank, n),
        ranked_below(new_edges, new_rank, m),
        call_ensures(co, (&n,), m),
        hylo_rel(gi, fa, ff, new_edges, new_rank, m, r),
    ensures
        hylo_rel(fi, fa, ff, edges, rank, n, r),
    decreases new_rank(m),
{
    let w = hylo_rel_unfold(gi, fa, ff, new_edges, new_rank, m, r);
    let kids = w.1;
    let m0 = choose|m0: N| call_ensures(contra, (&m,), m0) && call_ensures(fi, (&m0,), w.0);
    assert(m0 == n);
    let (m1, v) = choose|m1: N, v: Vec<N>|
        call_ensures(contra, (&m,), m1) && call_ensures(edges, (&m1,), v) && seq_mapped(co, v@, kids@);
    assert(m1 == n);
    assert forall|i: int| 0 <= i < v.len() implies hylo_rel(fi, fa, ff, edges, rank, #[trigger] v@[i], w.2[i]) by {
        assert(call_ensures(co, (&v@[i],), kids@[i]));
        assert(new_rank(kids@[i]) < new_rank(m));
        assert(hylo_rel(gi, fa, ff, new_edges, new_rank, kids@[i], w.2[i]));
        contramap_on_moved_tree_runs_unmoved(fi, fa, ff, edges, co, contra, gi, new_edges, rank, new_rank,
            v@[i], kids@[i], w.2[i]);
    }
    assert(call_ensures(fi, (&n,), w.0) && call_ensures(edges, (&n,), v));
}

/// `f` answers at most one result per argument.
pub open spec fn functional<A, B, F: Fn(&A) -> B>(f: F) -> bool {
    forall|a: A, b1: B, b2: B| #[trigger] call_ensures(f, (&a,), b1) && #[trigger] call_ensures(f, (&a,), b2) ==> b1 == b2
}

/// `acc` answers at most one heap per heap and result.
pub open spec fn functional_acc<H, R, FA: Fn(&H, &R) -> H>(acc: FA) -> bool {
    forall|h: H, r: R, h1: H, h2: H|
        #[trigger] call_ensures(acc, (&h, &r), h1) && #[trigger] call_ensures(acc, (&h, &r), h2) ==> h1 == h2
}

/// Two runs of a functional accumulate over the same results agree heap by heap.
proof fn chains_agree<H, R, FA: Fn(&H, &R) -> H>(acc: FA, h0: H, rs: Seq<R>, hs1: Seq<H>, hs2: Seq<H>, k: int)
    requires
        functional_acc(acc),
        acc_chain(acc, h0, rs, hs1),
        acc_chain(acc, h0, rs, hs2),
        0 <= k <= rs.len(),
    ensures
        hs1[k] == hs2[k],
    decreases k,
{
    if k > 0 {
        let i = k - 1;
        chains_agree(acc, h0, rs, hs1, hs2, i);
        assert(call_ensures(acc, (&hs1[i], &rs[i]), hs1[i + 1]));
        assert(call_ensures(acc, (&hs2[i], &rs[i]), hs2[i + 1]));
    }
}

/// When the phases and the edge function answer at most one result each,
/// folding a tree has exactly one result: every run gives the same.
pub proof fn hylo_result_unique<N, H, R, FI, FA, FF, E>(
    fi: FI, fa: FA, ff: FF,
    edges: E,
    rank: spec_fn(N) -> nat,
    n: N,
    r1: R,
    r2: R,
)
    where FI: Fn(&N) -> H, FA: Fn(&H, &R) -> H, FF: Fn(&H) -> R, E: Fn(&N) -> Vec<N>,
    requires
        functional(fi),
        functional_acc(fa),
        functional(ff),
        functional(edges),
        ranked_below(edges, rank, n),
        hylo_rel(fi, fa, ff, edges, rank, n, r1),
        hylo_rel(fi, fa, ff, edges, rank, n, r2),
    ensures
        r1 == r2,
    decreases rank(n),
{
    let w1 = hylo_rel_unfold(fi, fa, ff, edges, rank, n, r1);
    let w2 = hylo_rel_unfold(fi, fa, ff, edges, rank, n, r2);
    assert(w1.0 == w2.0);
    assert(w1.1 == w2.1);
    let kids = w1.1;
    assert forall|i: int| 0 <= i < kids.len() implies w1.2[i] == w2.2[i] by {
        assert(rank(kids@[i]) < rank(n));
        assert(hylo_rel(fi, fa, ff, edges, rank, kids@[i], w1.2[i]));
        assert(hylo_rel(fi, fa, ff, edges, rank, w2.1@[i], w2.2[i]));
        hylo_result_unique(fi, fa, ff, edges, rank, kids@[i], w1.2[i], w2.2[i]);
    }
    assert(w1.2 =~= w2.2);
    chains_agree(fa, w1.0, w1.2, w1.3, w2.3, w1.2.len() as int);
    assert(w1.3.last() == w2.3.last());
}

/// A node's result does not depend on the order in which its child results
/// arrive or on the strategy that accumulates them: with a functional
/// accumulate and finalize, two chains from the same heap over the same
/// results in slot order give the same result.
pub proof fn chain_result_unique<H, R, FA, FF>(acc: FA, fin: FF, h0: H, rs: Seq<R>, r1: R, r2: R)
    where FA: Fn(&H, &R) -> H, FF: Fn(&H) -> R,
    requires
        functional_acc(acc),
        functional(fin),
        chain_result(acc, fin, h0, rs, r1),
        chain_result(acc, fin, h0, rs, r2),
    ensures
        r1 == r2,
{
    let hs1 = choose|hs: Seq<H>| #[trigger] acc_chain(acc, h0, rs, hs) && call_ensures(fin, (&hs.last(),), r1);
    let hs2 = choose|hs: Seq<H>| #[trigger] acc_chain(acc, h0, rs, hs) && call_ensures(fin, (&hs.last(),), r2);
    chains_agree(acc, h0, rs, hs1, hs2, rs.len() as int);
}

/// A chain that starts from the heap of `n`, has one slot per child of `n`
/// in order, and gets in each slot a fold result of that child, gives a fold
/// result of `n`: the same one the fused executor computes.
pub proof fn chain_completes_fused_step<N, H, R, FI, FA, FF, E>(
    fi: FI, fa: FA, ff: FF,
    edges: E,
    rank: spec_fn(N) -> nat,
    n: N,
    h0: H,
    kids: Vec<N>,
    rs: Seq<R>,
    r: R,
)
    where FI: Fn(&N) -> H, FA: Fn(&H, &R) -> H, FF: Fn(&H) -> R, E: Fn(&N) -> Vec<N>,
    requires
        ranked_below(edges, rank, n),
        call_ensures(fi, (&n,), h0),
        call_ensures(edges, (&n,), kids),
        rs.len() == kids.len(),
        forall|i: int| 0 <= i < kids.len() ==> hylo_rel(fi, fa, ff, edges, rank, #[trigger] kids@[i], rs[i]),
        chain_result(fa, ff, h0, rs, r),
    ensures
        hylo_rel(fi, fa, ff, edges, rank, n, r),
{
    let hs = choose|hs: Seq<H>| #[trigger] acc_chain(fa, h0, rs, hs) && call_ensures(ff, (&hs.last(),), r);
    assert(acc_chain(fa, h0, rs, hs));
}

/// Along an accumulate run of an explaining fold, the heap after `k` steps
/// holds `k` more steps than the start heap, and its working heaps form a run
/// of the explained accumulate over the explained results.
proof fn explaining_chain<N: Clone, H: Clone, R, C, FA, GA>(
    acc: FA,
    inner: spec_fn(C) -> R,
    copy: spec_fn(C, C) -> bool,
    new_acc: GA,
    h0: ExplainerHeap<N, H, C>,
    cs: Seq<C>,
    hs: Seq<ExplainerHeap<N, H, C>>,
    k: int,
)
    where FA: Fn(&H, &R) -> H, GA: Fn(&ExplainerHeap<N, H, C>, &C) -> ExplainerHeap<N, H, C>,
    requires
        explained_acc(acc, inner, copy, new_acc),
        acc_chain(new_acc, h0, cs, hs),
        0 <= k <= cs.len(),
    ensures
        hs[k].transitions@.len() == h0.transitions@.len() + k,
    decreases k,
{
    if k > 0 {
        let i = k - 1;
        explaining_chain(acc, inner, copy, new_acc, h0, cs, hs, i);
        assert(call_ensures(new_acc, (&hs[i], &cs[i]), hs[i + 1]));
    }
}

/// Running the explaining fold gives, at every node, the explained fold's
/// result as `orig_result`, and one recorded step per child of the node.
pub proof fn explainer_runs_explained<N: Clone, H: Clone, R: Clone, FI, FA, FF, GI, GA, GF, E>(
    fi: FI, fa: FA, ff: FF,
    gi: GI, ga: GA, gf: GF,
    edges: E,
    rank: spec_fn(N) -> nat,
    n: N,
    out: ExplainerResult<N, H, R>,
)
    where
        FI: Fn(&N) -> H, FA: Fn(&H, &R) -> H, FF: Fn(&H) -> R,
        GI: Fn(&N) -> ExplainerHeap<N, H, ExplainerResult<N, H, R>>,
        GA: Fn(&ExplainerHeap<N, H, ExplainerResult<N, H, R>>, &ExplainerResult<N, H, R>)
            -> ExplainerHeap<N, H, ExplainerResult<N, H, R>>,
        GF: Fn(&ExplainerHeap<N, H, ExplainerResult<N, H, R>>) -> ExplainerResult<N, H, R>,
        E: Fn(&N) -> Vec<N>,
    requires
        explained(fi, fa, ff, gi, ga, gf),
        ranked_below(edges, rank, n),
        hylo_rel(gi, ga, gf, edges, rank, n, out),
    ensures
        hylo_rel(fi, fa, ff, edges, rank, n, out.orig_result),
        exists|kids: Vec<N>| call_ensures(edges, (&n,), kids) && out.transitions@.len() == kids.len(),
    decreases rank(n),
{
    let w = hylo_rel_unfold(gi, ga, gf, edges, rank, n, out);
    let (h0, kids, rs, hs) = w;
    let ors = rs.map_values(|x: ExplainerResult<N, H, R>| x.orig_result);
    let whs = hs.map_values(|x: ExplainerHeap<N, H, ExplainerResult<N, H, R>>| x.working_heap);
    assert forall|i: int| 0 <= i < kids.len() implies hylo_rel(fi, fa, ff, edges, rank, #[trigger] kids@[i], ors[i]) by {
        assert(rank(kids@[i]) < rank(n));
        explainer_runs_explained(fi, fa, ff, gi, ga, gf, edges, rank, kids@[i], rs[i]);
    }
    assert(acc_chain(fa, h0.working_heap, ors, whs)) by {
        assert forall|i: int| 0 <= i < ors.len() implies #[trigger] call_ensures(fa, (&whs[i], &ors[i]), whs[i + 1]) by {
            assert(call_ensures(ga, (&hs[i], &rs[i]), hs[i + 1]));
        }
    }
    assert(call_ensures(fi, (&n,), h0.working_heap));
    assert(call_ensures(ff, (&whs.last(),), out.orig_result));
    explaining_chain(fa, |c: ExplainerResult<N, H, R>| c.orig_result,
        result_copy(),
        ga, h0, rs, hs, rs.len() as int);
    assert(call_ensures(gf, (&hs.last(),), out));
}

/// Running the describing fold gives, at every node, exactly what the
/// described fold gives.
pub proof fn describe_runs_described<N: Clone, H: Clone, R: Clone, S, FI, FA, FF, TI, TF, EM, GI, GA, GF, E>(
    fi: FI, fa: FA, ff: FF,
    fmt_init: TI, fmt_fin: TF, emit: EM,
    gi: GI, ga: GA, gf: GF,
    edges: E,
    rank: spec_fn(N) -> nat,
    n: N,
    r: R,
)
    where
        FI: Fn(&N) -> H, FA: Fn(&H, &R) -> H, FF: Fn(&H) -> R,
        TI: Fn(&ExplainerHeap<N, H, R>) -> S, TF: Fn(&S) -> String, EM: Fn(&String),
        GI: Fn(&N) -> ExplainerHeap<N, H, R>,
        GA: Fn(&ExplainerHeap<N, H, R>, &R) -> ExplainerHeap<N, H, R>,
        GF: Fn(&ExplainerHeap<N, H, R>) -> R,
        E: Fn(&N) -> Vec<N>,
    requires
        described(fi, fa, ff, fmt_init, fmt_fin, emit, gi, ga, gf),
        ranked_below(edges, rank, n),
        hylo_rel(gi, ga, gf, edges, rank, n, r),
    ensures
        hylo_rel(fi, fa, ff, edges, rank, n, r),
    decreases rank(n),
{
    let w = hylo_rel_unfold(gi, ga, gf, edges, rank, n, r);
    let (h0, kids, rs, hs) = w;
    let whs = hs.map_values(|x: ExplainerHeap<N, H, R>| x.working_heap);
    assert forall|i: int| 0 <= i < kids.len() implies hylo_rel(fi, fa, ff, edges, rank, #[trigger] kids@[i], rs[i]) by {
        assert(rank(kids@[i]) < rank(n));
        describe_runs_described(fi, fa, ff, fmt_init, fmt_fin, emit, gi, ga, gf, edges, rank, kids@[i], rs[i]);
    }
    assert(acc_chain(fa, h0.working_heap, rs, whs)) by {
        assert forall|i: int| 0 <= i < rs.len() implies #[trigger] call_ensures(fa, (&whs[i], &rs[i]), whs[i + 1]) by {
            assert(call_ensures(ga, (&hs[i], &rs[i]), hs[i + 1]));
        }
    }
    assert(call_ensures(fi, (&n,), h0.working_heap));
    assert(call_ensures(ff, (&whs.last(),), r));
}

} // verus!
