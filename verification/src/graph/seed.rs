//! `SeedGraph`: a tree unfolded from seeds. A node names the seeds of its
//! dependencies, each seed grows into a node, and a top-level entry names
//! the first seeds.
use std::sync::Arc;
use vstd::prelude::*;
use crate::graph::combinators::{map_vec, seq_mapped};
use crate::graph::edgy::Edgy;
use crate::graph::graph::Graph;

verus! {

/// A seed-based unfolding: `seeds_from_node: Fn(&Node) -> Vec<Seed>`,
/// `grow: Fn(&Seed) -> Node` and `seeds_from_top: Fn(&Top) -> Vec<Seed>`.
pub struct SeedGraph<FS, G, FT> {
    pub(crate) impl_seeds_from_node: Edgy<FS>,
    pub(crate) impl_grow: Arc<G>,
    pub(crate) impl_seeds_from_top: Edgy<FT>,
}

impl<FS, G, FT> SeedGraph<FS, G, FT> {
    /// The seeds of a node.
    pub closed spec fn node_seeds_fn(&self) -> FS {
        self.impl_seeds_from_node.edges_fn()
    }

    /// What a seed grows into.
    pub closed spec fn grow_fn(&self) -> G {
        *self.impl_grow
    }

    /// The seeds of a top-level entry.
    pub closed spec fn top_seeds_fn(&self) -> FT {
        self.impl_seeds_from_top.edges_fn()
    }

    /// Builds an unfolding from its three parts.
    pub fn new(seeds_from_node: Edgy<FS>, grow: G, seeds_from_top: Edgy<FT>) -> (res: Self)
        ensures
            res.node_seeds_fn() == seeds_from_node.edges_fn(),
            res.grow_fn() == grow,
            res.top_seeds_fn() == seeds_from_top.edges_fn(),
    {
        SeedGraph {
            impl_seeds_from_node: seeds_from_node,
            impl_grow: Arc::new(grow),
            impl_seeds_from_top: seeds_from_top,
        }
    }

    /// The seeds of `node`, in order.
    pub fn seeds_from_node<Node, Seed>(&self, node: &Node) -> (v: Vec<Seed>)
        where FS: Fn(&Node) -> Vec<Seed>,
        requires call_requires(self.node_seeds_fn(), (node,)),
        ensures call_ensures(self.node_seeds_fn(), (node,), v),
    {
        self.impl_seeds_from_node.apply(node)
    }

    /// The node that `seed` grows into.
    pub fn grow<Seed, Node>(&self, seed: &Seed) -> (n: Node)
        where G: Fn(&Seed) -> Node,
        requires call_requires(self.grow_fn(), (seed,)),
        ensures call_ensures(self.grow_fn(), (seed,), n),
    {
        (self.impl_grow)(seed)
    }

    /// The seeds of `top`, in order.
    pub fn seeds_from_top<Top, Seed>(&self, top: &Top) -> (v: Vec<Seed>)
        where FT: Fn(&Top) -> Vec<Seed>,
        requires call_requires(self.top_seeds_fn(), (top,)),
        ensures call_ensures(self.top_seeds_fn(), (top,), v),
    {
        self.impl_seeds_from_top.apply(top)
    }

    /// The tree this unfolding describes: the children of a node are its
    /// seeds, each grown into a node, in order.
    pub fn make_treeish<Node, Seed>(&self) -> (res: Edgy<impl Fn(&Node) -> Vec<Node>>)
        where FS: Fn(&Node) -> Vec<Seed>, G: Fn(&Seed) -> Node,
        ensures
            forall|n: &Node| call_requires(self.node_seeds_fn(), (n,)) && (forall|s: &Seed| call_requires(self.grow_fn(), (s,)))
                ==> #[trigger] call_requires(res.edges_fn(), (n,)),
            forall|n: &Node, w: Vec<Node>| #[trigger] call_ensures(res.edges_fn(), (n,), w) ==>
                exists|s: Vec<Seed>| call_ensures(self.node_seeds_fn(), (n,), s) && seq_mapped(self.grow_fn(), s@, w@),
    {
        let seeds = self.impl_seeds_from_node.clone();
        let grow = self.impl_grow.clone();
        assert(*grow == self.grow_fn());
        let f = move |n: &Node| -> (w: Vec<Node>)
            requires
                call_requires(seeds.edges_fn(), (n,)),
                forall|s: &Seed| #[trigger] call_requires(&*grow, (s,)),
            ensures
                exists|s: Vec<Seed>| call_ensures(seeds.edges_fn(), (n,), s) && seq_mapped(&*grow, s@, w@),
        {
            let s = seeds.apply(n);
            let ghost s0 = s;
            let w = map_vec(s, &*grow);
            assert(call_ensures(seeds.edges_fn(), (n,), s0) && seq_mapped(&*grow, s0@, w@));
            w
        };
        Edgy::new(f)
    }

    /// The entry edges of this unfolding: the seeds of a top, each grown into
    /// a node, in order.
    pub fn make_top_edgy<Top, Node, Seed>(&self) -> (res: Edgy<impl Fn(&Top) -> Vec<Node>>)
        where FT: Fn(&Top) -> Vec<Seed>, G: Fn(&Seed) -> Node,
        ensures
            forall|t: &Top| call_requires(self.top_seeds_fn(), (t,)) && (forall|s: &Seed| call_requires(self.grow_fn(), (s,)))
                ==> #[trigger] call_requires(res.edges_fn(), (t,)),
            forall|t: &Top, w: Vec<Node>| #[trigger] call_ensures(res.edges_fn(), (t,), w) ==>
                exists|s: Vec<Seed>| call_ensures(self.top_seeds_fn(), (t,), s) && seq_mapped(self.grow_fn(), s@, w@),
    {
        let seeds = self.impl_seeds_from_top.clone();
        let grow = self.impl_grow.clone();
        assert(*grow == self.grow_fn());
        let f = move |t: &Top| -> (w: Vec<Node>)
            requires
                call_requires(seeds.edges_fn(), (t,)),
                forall|s: &Seed| #[trigger] call_requires(&*grow, (s,)),
            ensures
                exists|s: Vec<Seed>| call_ensures(seeds.edges_fn(), (t,), s) && seq_mapped(&*grow, s@, w@),
        {
            let s = seeds.apply(t);
            let ghost s0 = s;
            let w = map_vec(s, &*grow);
            assert(call_ensures(seeds.edges_fn(), (t,), s0) && seq_mapped(&*grow, s0@, w@));
            w
        };
        Edgy::new(f)
    }

    /// The graph of this unfolding: its tree and its entry edges.
    pub fn make_graph<Top, Node, Seed>(&self)
        -> (res: Graph<impl Fn(&Node) -> Vec<Node>, impl Fn(&Top) -> Vec<Node>>)
        where FS: Fn(&Node) -> Vec<Seed>, FT: Fn(&Top) -> Vec<Seed>, G: Fn(&Seed) -> Node,
        ensures
            forall|n: &Node| call_requires(self.node_seeds_fn(), (n,)) && (forall|s: &Seed| call_requires(self.grow_fn(), (s,)))
                ==> #[trigger] call_requires(res.treeish.edges_fn(), (n,)),
            forall|n: &Node, w: Vec<Node>| #[trigger] call_ensures(res.treeish.edges_fn(), (n,), w) ==>
                exists|s: Vec<Seed>| call_ensures(self.node_seeds_fn(), (n,), s) && seq_mapped(self.grow_fn(), s@, w@),
            forall|t: &Top| call_requires(self.top_seeds_fn(), (t,)) && (forall|s: &Seed| call_requires(self.grow_fn(), (s,)))
                ==> #[trigger] call_requires(res.top_edgy.edges_fn(), (t,)),
            forall|t: &Top, w: Vec<Node>| #[trigger] call_ensures(res.top_edgy.edges_fn(), (t,), w) ==>
                exists|s: Vec<Seed>| call_ensures(self.top_seeds_fn(), (t,), s) && seq_mapped(self.grow_fn(), s@, w@),
    {
        Graph::new(self.make_treeish(), self.make_top_edgy())
    }

    /// Replaces `grow` by what `mapper` makes of it; the seed functions are kept.
    pub fn map_grow<G2, M>(&self, mapper: M) -> (res: SeedGraph<FS, G2, FT>)
        where M: FnOnce(Arc<G>) -> G2,
        requires
            forall|a: Arc<G>| *a == self.grow_fn() ==> #[trigger] call_requires(mapper, (a,)),
        ensures
            exists|a: Arc<G>| *a == self.grow_fn() && #[trigger] call_ensures(mapper, (a,), res.grow_fn()),
            res.node_seeds_fn() == self.node_seeds_fn(),
            res.top_seeds_fn() == self.top_seeds_fn(),
    {
        let orig = self.impl_grow.clone();
        assert(*orig == self.grow_fn());
        let ghost a = orig;
        let g = mapper(orig);
        let res = SeedGraph {
            impl_seeds_from_node: self.impl_seeds_from_node.clone(),
            impl_grow: Arc::new(g),
            impl_seeds_from_top: self.impl_seeds_from_top.clone(),
        };
        assert(call_ensures(mapper, (a,), res.grow_fn()));
        res
    }

    /// Replaces the node seeds by what `mapper` makes of them; the rest is kept.
    pub fn map_seeds_from_node<FS2, M>(&self, mapper: M) -> (res: SeedGraph<FS2, G, FT>)
        where M: FnOnce(Edgy<FS>) -> Edgy<FS2>,
        requires
            forall|e: Edgy<FS>| e.edges_fn() == self.node_seeds_fn() ==> #[trigger] call_requires(mapper, (e,)),
        ensures
            exists|e: Edgy<FS>, out: Edgy<FS2>| e.edges_fn() == self.node_seeds_fn()
                && #[trigger] call_ensures(mapper, (e,), out) && res.node_seeds_fn() == out.edges_fn(),
            res.grow_fn() == self.grow_fn(),
            res.top_seeds_fn() == self.top_seeds_fn(),
    {
        let e = self.impl_seeds_from_node.clone();
        let ghost e0 = e;
        let out = mapper(e);
        let ghost out0 = out;
        let res = SeedGraph {
            impl_seeds_from_node: out,
            impl_grow: self.impl_grow.clone(),
            impl_seeds_from_top: self.impl_seeds_from_top.clone(),
        };
        assert(call_ensures(mapper, (e0,), out0) && res.node_seeds_fn() == out0.edges_fn());
        res
    }

    /// Replaces the top seeds by what `mapper` makes of them; the rest is kept.
    pub fn map_seeds_from_top<FT2, M>(&self, mapper: M) -> (res: SeedGraph<FS, G, FT2>)
        where M: FnOnce(Edgy<FT>) -> Edgy<FT2>,
        requires
            forall|e: Edgy<FT>| e.edges_fn() == self.top_seeds_fn() ==> #[trigger] call_requires(mapper, (e,)),
        ensures
            exists|e: Edgy<FT>, out: Edgy<FT2>| e.edges_fn() == self.top_seeds_fn()
                && #[trigger] call_ensures(mapper, (e,), out) && res.top_seeds_fn() == out.edges_fn(),
            res.grow_fn() == self.grow_fn(),
            res.node_seeds_fn() == self.node_seeds_fn(),
    {
        let e = self.impl_seeds_from_top.clone();
        let ghost e0 = e;
        let out = mapper(e);
        let ghost out0 = out;
        let res = SeedGraph {
            impl_seeds_from_node: self.impl_seeds_from_node.clone(),
            impl_grow: self.impl_grow.clone(),
            impl_seeds_from_top: out,
        };
        assert(call_ensures(mapper, (e0,), out0) && res.top_seeds_fn() == out0.edges_fn());
        res
    }
}

impl<FS, G, FT> Clone for SeedGraph<FS, G, FT> {
    /// Another handle on the same three parts.
    fn clone(&self) -> (res: Self)
        ensures
            res.node_seeds_fn() == self.node_seeds_fn(),
            res.grow_fn() == self.grow_fn(),
            res.top_seeds_fn() == self.top_seeds_fn(),
    {
        let res = SeedGraph {
            impl_seeds_from_node: self.impl_seeds_from_node.clone(),
            impl_grow: self.impl_grow.clone(),
            impl_seeds_from_top: self.impl_seeds_from_top.clone(),
        };
        assert(res.grow_fn() == self.grow_fn());
        res
    }
}

} // verus!
