//! `Edgy`: a shared edge function `Fn(&N) -> Vec<E>`; `Treeish<N>` is
//! `Edgy` with edges of the node type itself.
use std::sync::Arc;
use vstd::prelude::*;
use crate::graph::combinators::{filter_vec, map_vec, or_contramapped, seq_filtered, seq_mapped};
use crate::graph::either::Either;

verus! {

/// `new_edges` is the tree `edges` moved to a new node type: the children of
/// a new node `n` are those of an old node that `contra` takes `n` to, each
/// mapped forward with `co`.
pub open spec fn tree_mapped<N, NewT, F, Co, Contra, G>(edges: F, co: Co, contra: Contra, new_edges: G) -> bool
    where F: Fn(&N) -> Vec<N>, Co: Fn(&N) -> NewT, Contra: Fn(&NewT) -> N, G: Fn(&NewT) -> Vec<NewT>,
{
    &&& forall|n: &NewT|
        call_requires(contra, (n,))
        && (forall|m: N| call_ensures(contra, (n,), m) ==> call_requires(edges, (&m,)))
        && (forall|c: &N| call_requires(co, (c,)))
        ==> #[trigger] call_requires(new_edges, (n,))
    &&& forall|n: &NewT, w: Vec<NewT>| #[trigger] call_ensures(new_edges, (n,), w) ==>
        exists|m: N, v: Vec<N>|
            call_ensures(contra, (n,), m) && call_ensures(edges, (&m,), v)
            && seq_mapped(co, v@, w@)
}

/// A graph given by its edge function: for each node, its outgoing edges in
/// order. The function is shared behind `Arc`.
pub struct Edgy<F> {
    pub(crate) impl_visit: Arc<F>,
}

impl<F> Edgy<F> {
    /// The edge function.
    pub closed spec fn edges_fn(&self) -> F {
        *self.impl_visit
    }

    /// Builds a graph from its edge function.
    pub fn new(func: F) -> (res: Self)
        ensures res.edges_fn() == func,
    {
        Edgy { impl_visit: Arc::new(func) }
    }

    /// The edges of `input`, in order.
    pub fn apply<N, E>(&self, input: &N) -> (v: Vec<E>)
        where F: Fn(&N) -> Vec<E>,
        requires call_requires(self.edges_fn(), (input,)),
        ensures call_ensures(self.edges_fn(), (input,), v),
    {
        (self.impl_visit)(input)
    }

    /// The edges of `node`, in order.
    pub fn at<N, E>(&self, node: &N) -> (v: Vec<E>)
        where F: Fn(&N) -> Vec<E>,
        requires call_requires(self.edges_fn(), (node,)),
        ensures call_ensures(self.edges_fn(), (node,), v),
    {
        self.apply(node)
    }

    /// Hands each edge of `node` to `cb`, in order: `cb` is called on every
    /// edge that the edge function answers on `node`.
    pub fn visit<N, E, C: FnMut(&E)>(&self, node: &N, cb: &mut C)
        where F: Fn(&N) -> Vec<E>,
        requires
            call_requires(self.edges_fn(), (node,)),
            forall|e: &E| #[trigger] call_requires(*old(cb), (e,)),
        ensures
            *final(cb) == *old(cb),
            exists|v: Vec<E>| call_ensures(self.edges_fn(), (node,), v)
                && forall|i: int| 0 <= i < v.len() ==> #[trigger] call_ensures(*old(cb), (&v@[i],), ()),
    {
        let v = self.apply(node);
        let mut i: usize = 0;
        while i < v.len()
            invariant
                i <= v.len(),
                *cb == *old(cb),
                forall|e: &E| #[trigger] call_requires(*old(cb), (e,)),
                forall|j: int| 0 <= j < i ==> #[trigger] call_ensures(*old(cb), (&v@[j],), ()),
            decreases v.len() - i,
        {
            cb(&v[i]);
            i += 1;
        }
    }

    /// Replaces the edge function by what `rewrite_visit` makes of it.
    pub fn map_endpoints<G, MV>(&self, rewrite_visit: MV) -> (res: Edgy<G>)
        where MV: FnOnce(Arc<F>) -> G,
        requires
            forall|a: Arc<F>| *a == self.edges_fn() ==> #[trigger] call_requires(rewrite_visit, (a,)),
        ensures
            exists|a: Arc<F>| *a == self.edges_fn() && #[trigger] call_ensures(rewrite_visit, (a,), res.edges_fn()),
    {
        let orig = self.impl_visit.clone();
        assert(*orig == self.edges_fn());
        let ghost a = orig;
        let g = rewrite_visit(orig);
        let res = Edgy { impl_visit: Arc::new(g) };
        assert(call_ensures(rewrite_visit, (a,), res.edges_fn()));
        res
    }

    /// Maps every edge with `transform`.
    pub fn map<N, E, NewE, T>(&self, transform: T) -> (res: Edgy<impl Fn(&N) -> Vec<NewE>>)
        where F: Fn(&N) -> Vec<E>, T: Fn(&E) -> NewE,
        ensures
            forall|n: &N| call_requires(self.edges_fn(), (n,)) && (forall|e: &E| call_requires(transform, (e,)))
                ==> #[trigger] call_requires(res.edges_fn(), (n,)),
            forall|n: &N, w: Vec<NewE>| #[trigger] call_ensures(res.edges_fn(), (n,), w) ==>
                exists|v: Vec<E>| call_ensures(self.edges_fn(), (n,), v) && seq_mapped(transform, v@, w@),
    {
        let inner = self.impl_visit.clone();
        assert(*inner == self.edges_fn());
        let f = move |n: &N| -> (w: Vec<NewE>)
            requires
                call_requires(&*inner, (n,)),
                forall|e: &E| #[trigger] call_requires(&transform, (e,)),
            ensures
                exists|v: Vec<E>| call_ensures(&*inner, (n,), v) && seq_mapped(&transform, v@, w@),
        {
            let v = inner(n);
            let ghost v0 = v;
            let w = map_vec(v, &transform);
            assert(call_ensures(&*inner, (n,), v0) && seq_mapped(&transform, v0@, w@));
            w
        };
        Edgy { impl_visit: Arc::new(f) }
    }

    /// Changes the node type: each new node is turned into an old one with
    /// `transform`, whose edges are the answer.
    pub fn contramap<N, E, NewN, T>(&self, transform: T) -> (res: Edgy<impl Fn(&NewN) -> Vec<E>>)
        where F: Fn(&N) -> Vec<E>, T: Fn(&NewN) -> N,
        ensures
            forall|n: &NewN|
                call_requires(transform, (n,))
                && (forall|m: N| call_ensures(transform, (n,), m) ==> call_requires(self.edges_fn(), (&m,)))
                ==> #[trigger] call_requires(res.edges_fn(), (n,)),
            forall|n: &NewN, v: Vec<E>| #[trigger] call_ensures(res.edges_fn(), (n,), v) ==>
                exists|m: N| call_ensures(transform, (n,), m) && call_ensures(self.edges_fn(), (&m,), v),
    {
        let inner = self.impl_visit.clone();
        assert(*inner == self.edges_fn());
        let f = move |n: &NewN| -> (v: Vec<E>)
            requires
                call_requires(&transform, (n,)),
                forall|m: N| call_ensures(&transform, (n,), m) ==> call_requires(&*inner, (&m,)),
            ensures
                exists|m: N| call_ensures(&transform, (n,), m) && call_ensures(&*inner, (&m,), v),
        {
            let m = transform(n);
            inner(&m)
        };
        Edgy { impl_visit: Arc::new(f) }
    }

    /// Changes the node type with a fallback: `transform` either turns a new
    /// node into an old one (`Left`), whose edges are the answer, or gives the
    /// edges themselves (`Right`).
    pub fn contramap_or<N, E, NewN, T>(&self, transform: T) -> (res: Edgy<impl Fn(&NewN) -> Vec<E>>)
        where F: Fn(&N) -> Vec<E>, T: Fn(&NewN) -> Either<N, Vec<E>>,
        ensures or_contramapped(self.edges_fn(), transform, res.edges_fn()),
    {
        let inner = self.impl_visit.clone();
        assert(*inner == self.edges_fn());
        let f = move |n: &NewN| -> (v: Vec<E>)
            requires
                call_requires(&transform, (n,)),
                forall|x: Either<N, Vec<E>>| #[trigger] call_ensures(&transform, (n,), x) ==> match x {
                    Either::Left(m) => call_requires(&*inner, (&m,)),
                    Either::Right(_) => true,
                },
            ensures
                exists|x: Either<N, Vec<E>>| #[trigger] call_ensures(&transform, (n,), x) && match x {
                    Either::Left(m) => call_ensures(&*inner, (&m,), v),
                    Either::Right(w) => v == w,
                },
        {
            let x = transform(n);
            let ghost x0 = x;
            match x {
                Either::Left(m) => {
                    let v = inner(&m);
                    assert(call_ensures(&transform, (n,), x0));
                    v
                },
                Either::Right(w) => {
                    assert(call_ensures(&transform, (n,), x0));
                    w
                },
            }
        };
        Edgy { impl_visit: Arc::new(f) }
    }

    /// The same as [`Edgy::contramap_or`]: a new node either becomes an old
    /// one, whose edges are the answer, or gives its edges directly.
    pub fn contramap_or_emit<N, E, NewN, T>(&self, transform: T) -> (res: Edgy<impl Fn(&NewN) -> Vec<E>>)
        where F: Fn(&N) -> Vec<E>, T: Fn(&NewN) -> Either<N, Vec<E>>,
        ensures or_contramapped(self.edges_fn(), transform, res.edges_fn()),
    {
        self.contramap_or(transform)
    }

    /// Keeps only the edges on which `pred` answers `true`, in their order.
    pub fn filter<N, E, P>(&self, pred: P) -> (res: Edgy<impl Fn(&N) -> Vec<E>>)
        where F: Fn(&N) -> Vec<E>, P: Fn(&E) -> bool,
        ensures
            forall|n: &N| call_requires(self.edges_fn(), (n,)) && (forall|e: &E| call_requires(pred, (e,)))
                ==> #[trigger] call_requires(res.edges_fn(), (n,)),
            forall|n: &N, w: Vec<E>| #[trigger] call_ensures(res.edges_fn(), (n,), w) ==>
                exists|v: Vec<E>| call_ensures(self.edges_fn(), (n,), v) && seq_filtered(pred, v@, w@),
    {
        let inner = self.impl_visit.clone();
        assert(*inner == self.edges_fn());
        let f = move |n: &N| -> (w: Vec<E>)
            requires
                call_requires(&*inner, (n,)),
                forall|e: &E| #[trigger] call_requires(&pred, (e,)),
            ensures
                exists|v: Vec<E>| call_ensures(&*inner, (n,), v) && seq_filtered(&pred, v@, w@),
        {
            let v = inner(n);
            let ghost v0 = v;
            let w = filter_vec(v, &pred);
            assert(call_ensures(&*inner, (n,), v0) && seq_filtered(&pred, v0@, w@));
            w
        };
        Edgy { impl_visit: Arc::new(f) }
    }

    /// The children of `node` in a tree-shaped graph, in order.
    pub fn children<N>(&self, node: &N) -> (v: Vec<N>)
        where F: Fn(&N) -> Vec<N>,
        requires call_requires(self.edges_fn(), (node,)),
        ensures call_ensures(self.edges_fn(), (node,), v),
    {
        self.apply(node)
    }

    /// Changes the node type of a tree-shaped graph along a pair of maps:
    /// the children of a new node `n` are found by taking `contra_tf(n)` to an
    /// old node and mapping each of its children forward with `co_tf`.
    pub fn treemap<N, NewT, Co, Contra>(&self, co_tf: Co, contra_tf: Contra)
        -> (res: Edgy<impl Fn(&NewT) -> Vec<NewT>>)
        where F: Fn(&N) -> Vec<N>, Co: Fn(&N) -> NewT, Contra: Fn(&NewT) -> N,
        ensures
            tree_mapped(self.edges_fn(), co_tf, contra_tf, res.edges_fn()),
    {
        let mapped = self.map(co_tf);
        mapped.contramap(contra_tf)
    }
}

impl<F> Clone for Edgy<F> {
    /// Another handle on the same edge function.
    fn clone(&self) -> (res: Self)
        ensures res.edges_fn() == self.edges_fn(),
    {
        let res = Edgy { impl_visit: self.impl_visit.clone() };
        assert(res.edges_fn() == self.edges_fn());
        res
    }
}

/// Builds a graph from an edge function.
pub fn edgy<N, E, F: Fn(&N) -> Vec<E>>(func: F) -> (res: Edgy<F>)
    ensures res.edges_fn() == func,
{
    Edgy::new(func)
}

/// Builds a tree-shaped graph from a children function.
pub fn treeish<N, F: Fn(&N) -> Vec<N>>(func: F) -> (res: Edgy<F>)
    ensures res.edges_fn() == func,
{
    Edgy::new(func)
}

/// Builds a tree-shaped graph from an accessor that lends the children of a
/// node as a slice: the children are copies of the slice's elements, in order.
pub fn treeish_from<N: Clone, A>(accessor: A) -> (res: Edgy<impl Fn(&N) -> Vec<N>>)
    where A: for<'a> Fn(&'a N) -> &'a [N],
    ensures
        forall|n: &N| call_requires(accessor, (n,)) ==> #[trigger] call_requires(res.edges_fn(), (n,)),
        forall|n: &N, w: Vec<N>| #[trigger] call_ensures(res.edges_fn(), (n,), w) ==>
            exists|s: &[N]| call_ensures(accessor, (n,), s) && w@.len() == s@.len()
                && forall|i: int| 0 <= i < s@.len() ==> cloned::<N>(s@[i], #[trigger] w@[i]),
{
    let f = move |n: &N| -> (w: Vec<N>)
        requires call_requires(&accessor, (n,)),
        ensures
            exists|s: &[N]| call_ensures(&accessor, (n,), s) && w@.len() == s@.len()
                && forall|i: int| 0 <= i < s@.len() ==> cloned::<N>(s@[i], #[trigger] w@[i]),
    {
        let s = accessor(n);
        let mut w: Vec<N> = Vec::new();
        let mut i: usize = 0;
        while i < s.len()
            invariant
                i <= s@.len(),
                w@.len() == i,
                forall|j: int| 0 <= j < i ==> cloned::<N>(s@[j], #[trigger] w@[j]),
            decreases s@.len() - i,
        {
            w.push(s[i].clone());
            i += 1;
        }
        w
    };
    Edgy::new(f)
}

} // verus!
