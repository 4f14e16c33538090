//! `Graph`: a tree-shaped graph over nodes together with the edges from a
//! top-level entry point into it.
use vstd::prelude::*;
use crate::graph::edgy::Edgy;

verus! {

/// A tree over `Node`s (`treeish`) and the edges from a `Top` into it (`top_edgy`).
pub struct Graph<T, U> {
    pub treeish: Edgy<T>,
    pub top_edgy: Edgy<U>,
}

impl<T, U> Graph<T, U> {
    /// Builds a graph from its two parts.
    pub fn new(treeish: Edgy<T>, top_edgy: Edgy<U>) -> (res: Self)
        ensures
            res.treeish == treeish,
            res.top_edgy == top_edgy,
    {
        Graph { treeish, top_edgy }
    }

    /// Replaces the tree by what `mapper` makes of it; the top edges are kept.
    pub fn map_treeish<T2, M>(&self, mapper: M) -> (res: Graph<T2, U>)
        where M: FnOnce(Edgy<T>) -> Edgy<T2>,
        requires
            forall|e: Edgy<T>| e.edges_fn() == self.treeish.edges_fn() ==> #[trigger] call_requires(mapper, (e,)),
        ensures
            exists|e: Edgy<T>| e.edges_fn() == self.treeish.edges_fn() && #[trigger] call_ensures(mapper, (e,), res.treeish),
            res.top_edgy.edges_fn() == self.top_edgy.edges_fn(),
    {
        let t = self.treeish.clone();
        let ghost e = t;
        let treeish = mapper(t);
        let res = Graph { treeish, top_edgy: self.top_edgy.clone() };
        assert(call_ensures(mapper, (e,), res.treeish));
        res
    }

    /// Replaces the top edges by what `mapper` makes of them; the tree is kept.
    pub fn map_top_edgy<U2, M>(&self, mapper: M) -> (res: Graph<T, U2>)
        where M: FnOnce(Edgy<U>) -> Edgy<U2>,
        requires
            forall|e: Edgy<U>| e.edges_fn() == self.top_edgy.edges_fn() ==> #[trigger] call_requires(mapper, (e,)),
        ensures
            exists|e: Edgy<U>| e.edges_fn() == self.top_edgy.edges_fn() && #[trigger] call_ensures(mapper, (e,), res.top_edgy),
            res.treeish.edges_fn() == self.treeish.edges_fn(),
    {
        let u = self.top_edgy.clone();
        let ghost e = u;
        let top_edgy = mapper(u);
        let res = Graph { treeish: self.treeish.clone(), top_edgy };
        assert(call_ensures(mapper, (e,), res.top_edgy));
        res
    }
}

impl<T, U> Clone for Graph<T, U> {
    /// Another handle on the same two edge functions.
    fn clone(&self) -> (res: Self)
        ensures
            res.treeish.edges_fn() == self.treeish.edges_fn(),
            res.top_edgy.edges_fn() == self.top_edgy.edges_fn(),
    {
        Graph { treeish: self.treeish.clone(), top_edgy: self.top_edgy.clone() }
    }
}

} // verus!
