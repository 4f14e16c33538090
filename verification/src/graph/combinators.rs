//! Edge-function combinators on bare closures: map the edges, change the
//! node type, or keep only some edges.
use vstd::prelude::*;
use crate::graph::either::Either;

verus! {

/// `b` is `a` with `t` applied to each element.
pub open spec fn seq_mapped<A, B, T: Fn(&A) -> B>(t: T, a: Seq<A>, b: Seq<B>) -> bool {
    &&& a.len() == b.len()
    &&& forall|i: int| 0 <= i < a.len() ==> #[trigger] call_ensures(t, (&a[i],), b[i])
}

/// The elements of `v` whose flag in `keep` is set, in their order.
pub open spec fn selected<E>(v: Seq<E>, keep: Seq<bool>) -> Seq<E>
    decreases v.len(),
{
    if v.len() == 0 {
        Seq::empty()
    } else {
        let rest = selected(v.drop_last(), keep.drop_last());
        if keep.last() { rest.push(v.last()) } else { rest }
    }
}

/// `b` holds the elements of `a` on which `pred` answered `true`, in order.
pub open spec fn seq_filtered<E, P: Fn(&E) -> bool>(pred: P, a: Seq<E>, b: Seq<E>) -> bool {
    exists|keep: Seq<bool>|
        #![trigger selected(a, keep)]
        keep.len() == a.len()
        && (forall|i: int| 0 <= i < a.len() ==> #[trigger] call_ensures(pred, (&a[i],), keep[i]))
        && b == selected(a, keep)
}

proof fn lemma_selected_const<E>(v: Seq<E>, keep: Seq<bool>, flag: bool)
    requires
        keep.len() == v.len(),
        forall|i: int| 0 <= i < keep.len() ==> keep[i] == flag,
    ensures
        flag ==> selected(v, keep) == v,
        !flag ==> selected(v, keep) == Seq::<E>::empty(),
    decreases v.len(),
{
    if v.len() > 0 {
        lemma_selected_const(v.drop_last(), keep.drop_last(), flag);
        if flag {
            assert(v.drop_last().push(v.last()) =~= v);
        }
    }
}

/// The pairs of each element of `v` with its flag in `keep`.
pub open spec fn flagged<E>(v: Seq<E>, keep: Seq<bool>) -> Seq<(E, bool)> {
    Seq::new(v.len(), |i: int| (v[i], keep[i]))
}

/// Filtering keeps exactly the elements whose flag is set, in order: one
/// more element with flag `b` is kept after what the others keep exactly when
/// `b` is set, and nothing is kept of nothing.
pub proof fn selected_push<E>(v: Seq<E>, keep: Seq<bool>, e: E, b: bool)
    requires
        keep.len() == v.len(),
    ensures
        selected(Seq::<E>::empty(), Seq::<bool>::empty()) == Seq::<E>::empty(),
        selected(v.push(e), keep.push(b)) == (if b { selected(v, keep).push(e) } else { selected(v, keep) }),
{
    assert(v.push(e).drop_last() =~= v);
    assert(keep.push(b).drop_last() =~= keep);
}

/// What filtering keeps is the elements of the flagged pairs whose flag is
/// set, in order; so it keeps as many elements as there are set flags.
pub proof fn selected_is_flag_filter<E>(v: Seq<E>, keep: Seq<bool>)
    requires
        keep.len() == v.len(),
    ensures
        selected(v, keep) == flagged(v, keep).filter(|p: (E, bool)| p.1).map_values(|p: (E, bool)| p.0),
        selected(v, keep).len() == keep.filter(|b: bool| b).len(),
    decreases v.len(),
{
    reveal(Seq::filter);
    let pairs = flagged(v, keep);
    if v.len() == 0 {
        assert(pairs.len() == 0);
        assert(pairs.filter(|p: (E, bool)| p.1).map_values(|p: (E, bool)| p.0) =~= Seq::<E>::empty());
    } else {
        let v0 = v.drop_last();
        let k0 = keep.drop_last();
        selected_is_flag_filter(v0, k0);
        assert(pairs.drop_last() =~= flagged(v0, k0));
        assert(pairs.last() == (v.last(), keep.last()));
        let f0 = flagged(v0, k0).filter(|p: (E, bool)| p.1);
        if keep.last() {
            assert(pairs.filter(|p: (E, bool)| p.1) == f0.push(pairs.last()));
            assert(f0.push(pairs.last()).map_values(|p: (E, bool)| p.0)
                =~= f0.map_values(|p: (E, bool)| p.0).push(v.last()));
        } else {
            assert(pairs.filter(|p: (E, bool)| p.1) == f0);
        }
    }
}

/// Filtering with a predicate that answers `true` on every edge keeps every
/// edge, in order; one that answers `false` on every edge keeps none.
pub proof fn filter_by_constant<E, P: Fn(&E) -> bool>(pred: P, a: Seq<E>, b: Seq<E>, flag: bool)
    requires
        seq_filtered(pred, a, b),
        forall|e: E, x: bool| #[trigger] call_ensures(pred, (&e,), x) ==> x == flag,
    ensures
        flag ==> b == a,
        !flag ==> b == Seq::<E>::empty(),
{
    let keep = choose|keep: Seq<bool>|
        #![trigger selected(a, keep)]
        keep.len() == a.len()
        && (forall|i: int| 0 <= i < a.len() ==> #[trigger] call_ensures(pred, (&a[i],), keep[i]))
        && b == selected(a, keep);
    assert forall|i: int| 0 <= i < keep.len() implies keep[i] == flag by {
        assert(call_ensures(pred, (&a[i],), keep[i]));
    }
    lemma_selected_const(a, keep, flag);
}

/// Applies `transform` to each element of `v`, in order.
pub fn map_vec<E, NewE, T: Fn(&E) -> NewE>(v: Vec<E>, transform: &T) -> (w: Vec<NewE>)
    requires
        forall|e: &E| #[trigger] call_requires(*transform, (e,)),
    ensures
        seq_mapped(*transform, v@, w@),
{
    let mut w: Vec<NewE> = Vec::new();
    let mut i: usize = 0;
    while i < v.len()
        invariant
            forall|e: &E| #[trigger] call_requires(*transform, (e,)),
            i <= v.len(),
            w.len() == i,
            forall|j: int| 0 <= j < i ==> #[trigger] call_ensures(*transform, (&v@[j],), w@[j]),
        decreases v.len() - i,
    {
        let x = transform(&v[i]);
        w.push(x);
        i += 1;
    }
    w
}

/// Keeps the elements of `v` on which `pred` answers `true`, in order.
pub fn filter_vec<E, P: Fn(&E) -> bool>(v: Vec<E>, pred: &P) -> (w: Vec<E>)
    requires
        forall|e: &E| #[trigger] call_requires(*pred, (e,)),
    ensures
        seq_filtered(*pred, v@, w@),
{
    let ghost orig = v@;
    let total: usize = v.len();
    let ghost mut keep: Seq<bool> = Seq::empty();
    let mut w: Vec<E> = Vec::new();
    let mut rest = v;
    let mut i: usize = 0;
    while rest.len() > 0
        invariant
            forall|e: &E| #[trigger] call_requires(*pred, (e,)),
            i + rest.len() == total,
            total == orig.len(),
            rest@ == orig.skip(i as int),
            keep.len() == i,
            forall|j: int| 0 <= j < i ==> #[trigger] call_ensures(*pred, (&orig[j],), keep[j]),
            w@ == selected(orig.take(i as int), keep),
        decreases rest.len(),
    {
        let e = rest.remove(0);
        let b = pred(&e);
        proof {
            assert(orig.take(i + 1).drop_last() == orig.take(i as int));
            assert(keep.push(b).drop_last() == keep);
            keep = keep.push(b);
        }
        if b {
            w.push(e);
        }
        i += 1;
        assert(rest@ == orig.skip(i as int));
    }
    assert(orig.take(i as int) == orig);
    w
}

/// Maps every edge that `inner` gives with `transform`.
pub fn map_edges<N, E, NewE, F, T>(inner: F, transform: T) -> (res: impl Fn(&N) -> Vec<NewE>)
    where F: Fn(&N) -> Vec<E>, T: Fn(&E) -> NewE,
    ensures
        forall|n: &N| call_requires(inner, (n,)) && (forall|e: &E| call_requires(transform, (e,)))
            ==> #[trigger] call_requires(res, (n,)),
        forall|n: &N, w: Vec<NewE>| #[trigger] call_ensures(res, (n,), w) ==>
            exists|v: Vec<E>| call_ensures(inner, (n,), v) && seq_mapped(transform, v@, w@),
{
    move |n: &N| -> (w: Vec<NewE>)
        requires
            call_requires(&inner, (n,)),
            forall|e: &E| #[trigger] call_requires(&transform, (e,)),
        ensures
            exists|v: Vec<E>| call_ensures(&inner, (n,), v) && seq_mapped(&transform, v@, w@),
    {
        let v = inner(n);
        let ghost v0 = v;
        let w = map_vec(v, &transform);
        assert(call_ensures(&inner, (n,), v0) && seq_mapped(&transform, v0@, w@));
        w
    }
}

/// Changes the node type: each new node is turned into an old one with
/// `transform`, whose edges are the answer.
pub fn contramap_node<N, E, NewN, F, T>(inner: F, transform: T) -> (res: impl Fn(&NewN) -> Vec<E>)
    where F: Fn(&N) -> Vec<E>, T: Fn(&NewN) -> N,
    ensures
        forall|n: &NewN|
            call_requires(transform, (n,)) && (forall|m: N| call_ensures(transform, (n,), m) ==> call_requires(inner, (&m,)))
            ==> #[trigger] call_requires(res, (n,)),
        forall|n: &NewN, v: Vec<E>| #[trigger] call_ensures(res, (n,), v) ==>
            exists|m: N| call_ensures(transform, (n,), m) && call_ensures(inner, (&m,), v),
{
    move |n: &NewN| -> (v: Vec<E>)
        requires
            call_requires(&transform, (n,)),
            forall|m: N| call_ensures(&transform, (n,), m) ==> call_requires(&inner, (&m,)),
        ensures
            exists|m: N| call_ensures(&transform, (n,), m) && call_ensures(&inner, (&m,), v),
    {
        let m = transform(n);
        inner(&m)
    }
}

/// `new_edges` changes the node type with a fallback: on a new node `n`,
/// `transform` answers either `Left(m)`, an old node whose edges (by
/// `inner`) are the answer, or `Right(w)`, the edges themselves. It may be
/// called where `transform` may and `inner` may on each node it answers.
pub open spec fn or_contramapped<N, E, NewN, F, T, G>(inner: F, transform: T, new_edges: G) -> bool
    where F: Fn(&N) -> Vec<E>, T: Fn(&NewN) -> Either<N, Vec<E>>, G: Fn(&NewN) -> Vec<E>,
{
    &&& forall|n: &NewN|
        call_requires(transform, (n,))
        && (forall|x: Either<N, Vec<E>>| #[trigger] call_ensures(transform, (n,), x) ==> match x {
            Either::Left(m) => call_requires(inner, (&m,)),
            Either::Right(_) => true,
        })
        ==> #[trigger] call_requires(new_edges, (n,))
    &&& forall|n: &NewN, v: Vec<E>| #[trigger] call_ensures(new_edges, (n,), v) ==>
        exists|x: Either<N, Vec<E>>| #[trigger] call_ensures(transform, (n,), x) && match x {
            Either::Left(m) => call_ensures(inner, (&m,), v),
            Either::Right(w) => v == w,
        }
}

/// Changes the node type with a fallback: `transform` either turns a new
/// node into an old one, whose edges are the answer, or gives the edges.
pub fn contramap_or_node<N, E, NewN, F, T>(inner: F, transform: T) -> (res: impl Fn(&NewN) -> Vec<E>)
    where F: Fn(&N) -> Vec<E>, T: Fn(&NewN) -> Either<N, Vec<E>>,
    ensures or_contramapped(inner, transform, res),
{
    move |n: &NewN| -> (v: Vec<E>)
        requires
            call_requires(&transform, (n,)),
            forall|x: Either<N, Vec<E>>| #[trigger] call_ensures(&transform, (n,), x) ==> match x {
                Either::Left(m) => call_requires(&inner, (&m,)),
                Either::Right(_) => true,
            },
        ensures
            exists|x: Either<N, Vec<E>>| #[trigger] call_ensures(&transform, (n,), x) && match x {
                Either::Left(m) => call_ensures(&inner, (&m,), v),
                Either::Right(w) => v == w,
            },
    {
        let x = transform(n);
        let ghost x0 = x;
        match x {
            Either::Left(m) => {
                let v = inner(&m);
                assert(call_ensures(&transform, (n,), x0));
                v
            },
            Either::Right(w) => {
                assert(call_ensures(&transform, (n,), x0));
                w
            },
        }
    }
}

/// Keeps, of the edges that `inner` gives, those on which `pred` answers `true`.
pub fn filter_edges<N, E, F, P>(inner: F, pred: P) -> (res: impl Fn(&N) -> Vec<E>)
    where F: Fn(&N) -> Vec<E>, P: Fn(&E) -> bool,
    ensures
        forall|n: &N| call_requires(inner, (n,)) && (forall|e: &E| call_requires(pred, (e,)))
            ==> #[trigger] call_requires(res, (n,)),
        forall|n: &N, w: Vec<E>| #[trigger] call_ensures(res, (n,), w) ==>
            exists|v: Vec<E>| call_ensures(inner, (n,), v) && seq_filtered(pred, v@, w@),
{
    move |n: &N| -> (w: Vec<E>)
        requires
            call_requires(&inner, (n,)),
            forall|e: &E| #[trigger] call_requires(&pred, (e,)),
        ensures
            exists|v: Vec<E>| call_ensures(&inner, (n,), v) && seq_filtered(&pred, v@, w@),
    {
        let v = inner(n);
        let ghost v0 = v;
        let w = filter_vec(v, &pred);
        assert(call_ensures(&inner, (n,), v0) && seq_filtered(&pred, v0@, w@));
        w
    }
}

} // verus!
