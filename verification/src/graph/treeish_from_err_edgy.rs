//! `TreeishFromErrEdgy`: a tree over nodes that are either valid (`Right`)
//! or errors (`Left`). Valid nodes get their children from an edge function;
//! an error node is first handed to a recovery function, which either turns
//! it into a valid node or gives its children directly.
use std::sync::Arc;
use vstd::prelude::*;
use crate::graph::edgy::Edgy;
use crate::graph::either::Either;

verus! {

/// The tree may be asked for the children of `n`: the edge function may be
/// called on a valid node, and on an error node the recovery function may be
/// called, and the edge function on each valid node it answers.
pub open spec fn err_callable<NV, NE, FC, FE>(contramap_or: FC, edgy_valid: FE, n: Either<NE, NV>) -> bool
    where FC: Fn(&Either<NE, NV>) -> Either<Vec<Either<NE, NV>>, NV>, FE: Fn(&NV) -> Vec<Either<NE, NV>>,
{
    match n {
        Either::Right(valid) => call_requires(edgy_valid, (&valid,)),
        Either::Left(_) => {
            &&& call_requires(contramap_or, (&n,))
            &&& forall|x: Either<Vec<Either<NE, NV>>, NV>| #[trigger] call_ensures(contramap_or, (&n,), x) ==> match x {
                Either::Right(node) => call_requires(edgy_valid, (&node,)),
                Either::Left(_) => true,
            }
        },
    }
}

/// The children that the tree gives for `n`: those of the edge function on a
/// valid node; on an error node, those of the edge function on the valid
/// node that recovery answers, or the children that recovery gives.
pub open spec fn err_children<NV, NE, FC, FE>(
    contramap_or: FC,
    edgy_valid: FE,
    n: Either<NE, NV>,
    v: Vec<Either<NE, NV>>,
) -> bool
    where FC: Fn(&Either<NE, NV>) -> Either<Vec<Either<NE, NV>>, NV>, FE: Fn(&NV) -> Vec<Either<NE, NV>>,
{
    match n {
        Either::Right(valid) => call_ensures(edgy_valid, (&valid,), v),
        Either::Left(_) => exists|x: Either<Vec<Either<NE, NV>>, NV>|
            #[trigger] call_ensures(contramap_or, (&n,), x) && match x {
                Either::Right(node) => call_ensures(edgy_valid, (&node,), v),
                Either::Left(w) => v == w,
            },
    }
}

/// `tree` is the tree of `contramap_or` and `edgy_valid`: it may be called
/// where [`err_callable`] holds and answers [`err_children`].
pub open spec fn err_treeish<NV, NE, FC, FE, G>(contramap_or: FC, edgy_valid: FE, tree: G) -> bool
    where
        FC: Fn(&Either<NE, NV>) -> Either<Vec<Either<NE, NV>>, NV>, FE: Fn(&NV) -> Vec<Either<NE, NV>>,
        G: Fn(&Either<NE, NV>) -> Vec<Either<NE, NV>>,
{
    &&& forall|n: &Either<NE, NV>| err_callable(contramap_or, edgy_valid, *n) ==> #[trigger] call_requires(tree, (n,))
    &&& forall|n: &Either<NE, NV>, v: Vec<Either<NE, NV>>| #[trigger] call_ensures(tree, (n,), v)
        ==> err_children(contramap_or, edgy_valid, *n, v)
}

/// A tree over valid-or-error nodes, given by its recovery function for
/// error nodes and the edge function of valid nodes.
pub struct TreeishFromErrEdgy<FC, FE> {
    pub(crate) impl_contramap_or: Arc<FC>,
    pub(crate) impl_edgy_valid: Edgy<FE>,
}

impl<FC, FE> TreeishFromErrEdgy<FC, FE> {
    /// The recovery function.
    pub closed spec fn contramap_or_fn(&self) -> FC {
        *self.impl_contramap_or
    }

    /// The graph of valid nodes.
    pub closed spec fn valid_edgy(&self) -> Edgy<FE> {
        self.impl_edgy_valid
    }

    /// The edge function of valid nodes.
    pub open spec fn edgy_valid_fn(&self) -> FE {
        self.valid_edgy().edges_fn()
    }

    /// Builds the tree from the edges of valid nodes and a recovery function.
    pub fn new<NV, NE>(e: Edgy<FE>, contramap_or: FC) -> (res: Self)
        where FC: Fn(&Either<NE, NV>) -> Either<Vec<Either<NE, NV>>, NV>, FE: Fn(&NV) -> Vec<Either<NE, NV>>,
        ensures
            res.contramap_or_fn() == contramap_or,
            res.edgy_valid_fn() == e.edges_fn(),
    {
        TreeishFromErrEdgy { impl_contramap_or: Arc::new(contramap_or), impl_edgy_valid: e }
    }

    /// What recovery answers for `result`.
    pub fn contramap_or<NV, NE>(&self, result: &Either<NE, NV>) -> (x: Either<Vec<Either<NE, NV>>, NV>)
        where FC: Fn(&Either<NE, NV>) -> Either<Vec<Either<NE, NV>>, NV>,
        requires call_requires(self.contramap_or_fn(), (result,)),
        ensures call_ensures(self.contramap_or_fn(), (result,), x),
    {
        (self.impl_contramap_or)(result)
    }

    /// The edges of a valid node.
    pub fn edgy_valid<NV, NE>(&self, node: &NV) -> (v: Vec<Either<NE, NV>>)
        where FE: Fn(&NV) -> Vec<Either<NE, NV>>,
        requires call_requires(self.edgy_valid_fn(), (node,)),
        ensures call_ensures(self.edgy_valid_fn(), (node,), v),
    {
        self.impl_edgy_valid.apply(node)
    }

    /// The tree over valid-or-error nodes.
    pub fn make_treeish<NV, NE>(&self) -> (res: Edgy<impl Fn(&Either<NE, NV>) -> Vec<Either<NE, NV>>>)
        where FC: Fn(&Either<NE, NV>) -> Either<Vec<Either<NE, NV>>, NV>, FE: Fn(&NV) -> Vec<Either<NE, NV>>,
        ensures err_treeish(self.contramap_or_fn(), self.edgy_valid_fn(), res.edges_fn()),
    {
        let valid = self.impl_edgy_valid.clone();
        let recover = self.impl_contramap_or.clone();
        assert(*recover == self.contramap_or_fn());
        let f = move |n: &Either<NE, NV>| -> (v: Vec<Either<NE, NV>>)
            requires err_callable(&*recover, valid.edges_fn(), *n),
            ensures err_children(&*recover, valid.edges_fn(), *n, v),
        {
            match n {
                Either::Right(node) => valid.apply(node),
                Either::Left(_) => {
                    let x = recover(n);
                    let ghost x0 = x;
                    match x {
                        Either::Right(node) => {
                            let v = valid.apply(&node);
                            assert(call_ensures(&*recover, (n,), x0));
                            v
                        },
                        Either::Left(w) => {
                            assert(call_ensures(&*recover, (n,), x0));
                            w
                        },
                    }
                },
            }
        };
        Edgy::new(f)
    }

    /// Replaces the recovery function by what `mapper` makes of it.
    pub fn map_contramap_or<FC2, M>(&self, mapper: M) -> (res: TreeishFromErrEdgy<FC2, FE>)
        where M: FnOnce(Arc<FC>) -> FC2,
        requires
            forall|a: Arc<FC>| *a == self.contramap_or_fn() ==> #[trigger] call_requires(mapper, (a,)),
        ensures
            exists|a: Arc<FC>| *a == self.contramap_or_fn() && #[trigger] call_ensures(mapper, (a,), res.contramap_or_fn()),
            res.edgy_valid_fn() == self.edgy_valid_fn(),
    {
        map_contramap_or(self, mapper)
    }

    /// Replaces the edges of valid nodes by what `mapper` makes of them.
    pub fn map_edgy_valid<FE2, M>(&self, mapper: M) -> (res: TreeishFromErrEdgy<FC, FE2>)
        where M: FnOnce(Edgy<FE>) -> Edgy<FE2>,
        requires
            forall|e: Edgy<FE>| e.edges_fn() == self.edgy_valid_fn() ==> #[trigger] call_requires(mapper, (e,)),
        ensures
            exists|e: Edgy<FE>| e.edges_fn() == self.edgy_valid_fn()
                && #[trigger] call_ensures(mapper, (e,), res.valid_edgy()),
            res.contramap_or_fn() == self.contramap_or_fn(),
    {
        map_edgy_valid(self, mapper)
    }
}

impl<FC, FE> Clone for TreeishFromErrEdgy<FC, FE> {
    /// Another handle on the same two functions.
    fn clone(&self) -> (res: Self)
        ensures
            res.contramap_or_fn() == self.contramap_or_fn(),
            res.edgy_valid_fn() == self.edgy_valid_fn(),
    {
        let res = TreeishFromErrEdgy {
            impl_contramap_or: self.impl_contramap_or.clone(),
            impl_edgy_valid: self.impl_edgy_valid.clone(),
        };
        assert(res.contramap_or_fn() == self.contramap_or_fn());
        res
    }
}

/// Replaces the recovery function of `t` by what `mapper` makes of it.
pub fn map_contramap_or<FC, FE, FC2, M>(t: &TreeishFromErrEdgy<FC, FE>, mapper: M) -> (res: TreeishFromErrEdgy<FC2, FE>)
    where M: FnOnce(Arc<FC>) -> FC2,
    requires
        forall|a: Arc<FC>| *a == t.contramap_or_fn() ==> #[trigger] call_requires(mapper, (a,)),
    ensures
        exists|a: Arc<FC>| *a == t.contramap_or_fn() && #[trigger] call_ensures(mapper, (a,), res.contramap_or_fn()),
        res.edgy_valid_fn() == t.edgy_valid_fn(),
{
    let orig = t.impl_contramap_or.clone();
    assert(*orig == t.contramap_or_fn());
    let ghost a = orig;
    let g = mapper(orig);
    let res = TreeishFromErrEdgy { impl_contramap_or: Arc::new(g), impl_edgy_valid: t.impl_edgy_valid.clone() };
    assert(call_ensures(mapper, (a,), res.contramap_or_fn()));
    res
}

/// Replaces the edges of valid nodes of `t` by what `mapper` makes of them.
pub fn map_edgy_valid<FC, FE, FE2, M>(t: &TreeishFromErrEdgy<FC, FE>, mapper: M) -> (res: TreeishFromErrEdgy<FC, FE2>)
    where M: FnOnce(Edgy<FE>) -> Edgy<FE2>,
    requires
        forall|e: Edgy<FE>| e.edges_fn() == t.edgy_valid_fn() ==> #[trigger] call_requires(mapper, (e,)),
    ensures
        exists|e: Edgy<FE>| e.edges_fn() == t.edgy_valid_fn() && #[trigger] call_ensures(mapper, (e,), res.valid_edgy()),
        res.contramap_or_fn() == t.contramap_or_fn(),
{
    let e = t.impl_edgy_valid.clone();
    let ghost e0 = e;
    let e2 = mapper(e);
    let res = TreeishFromErrEdgy { impl_contramap_or: t.impl_contramap_or.clone(), impl_edgy_valid: e2 };
    assert(call_ensures(mapper, (e0,), res.valid_edgy()));
    res
}

/// The default recovery of an error node: no children.
pub fn default_contramap_err_case<NV, NE>(err: &NE) -> (x: Either<Vec<Either<NE, NV>>, NV>)
    ensures x matches Either::Left(w) && w@.len() == 0,
{
    Either::Left(Vec::new())
}

/// The default recovery: a valid node is kept (cloned), an error node has no
/// children.
pub fn default_contramap<NV: Clone, NE>() -> (f: impl Fn(&Either<NE, NV>) -> Either<Vec<Either<NE, NV>>, NV>)
    ensures
        forall|n: &Either<NE, NV>| #[trigger] call_requires(f, (n,)),
        forall|n: &Either<NE, NV>, x: Either<Vec<Either<NE, NV>>, NV>| #[trigger] call_ensures(f, (n,), x) ==> match *n {
            Either::Right(v) => x matches Either::Right(c) && cloned::<NV>(v, c),
            Either::Left(_) => x matches Either::Left(w) && w@.len() == 0,
        },
{
    |n: &Either<NE, NV>| -> (x: Either<Vec<Either<NE, NV>>, NV>)
        ensures match *n {
            Either::Right(v) => x matches Either::Right(c) && cloned::<NV>(v, c),
            Either::Left(_) => x matches Either::Left(w) && w@.len() == 0,
        },
    {
        match n {
            Either::Right(valid) => Either::Right(valid.clone()),
            Either::Left(err) => default_contramap_err_case(err),
        }
    }
}

/// The tree of `e` with the default recovery.
pub fn new_default<NV: Clone, NE, FE>(e: Edgy<FE>)
    -> (res: TreeishFromErrEdgy<impl Fn(&Either<NE, NV>) -> Either<Vec<Either<NE, NV>>, NV>, FE>)
    where FE: Fn(&NV) -> Vec<Either<NE, NV>>,
    ensures
        res.edgy_valid_fn() == e.edges_fn(),
        forall|n: &Either<NE, NV>| #[trigger] call_requires(res.contramap_or_fn(), (n,)),
        forall|n: &Either<NE, NV>, x: Either<Vec<Either<NE, NV>>, NV>|
            #[trigger] call_ensures(res.contramap_or_fn(), (n,), x) ==> match *n {
                Either::Right(v) => x matches Either::Right(c) && cloned::<NV>(v, c),
                Either::Left(_) => x matches Either::Left(w) && w@.len() == 0,
            },
{
    TreeishFromErrEdgy::new(e, default_contramap())
}

} // verus!
