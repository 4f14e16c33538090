//! The explainer: a rewrite of a fold whose heap also records the node and
//! every accumulate step, so that a run shows how each node's heap evolved.
//! [`Fold::explainer`](crate::fold::Fold::explainer) builds it;
//! [`Fold::explainer_describe`](crate::fold::Fold::explainer_describe) renders
//! each finished heap with a formatter fold and keeps the result type.
use vstd::prelude::*;

verus! {

/// One accumulate step: the child result that came in and the heap it gave.
#[derive(Clone, Debug)]
pub struct ExplainerStep<H, R> {
    pub incoming_result: R,
    pub resulting_heap: H,
}

/// The heap of an explaining fold: the node, the heap of the explained fold,
/// and every accumulate step so far, in order.
#[derive(Clone, Debug)]
pub struct ExplainerHeap<N, H, R> {
    pub node: N,
    pub working_heap: H,
    pub transitions: Vec<ExplainerStep<H, R>>,
}

/// The result of an explaining fold at a node: the explained fold's result,
/// and the node's finished heap (its node, last working heap and steps),
/// whose steps hold the children's own `ExplainerResult`s. It is copied with
/// [`ExplainerResult::deep_clone`].
#[derive(Debug)]
pub struct ExplainerResult<N, H, R> {
    pub orig_result: R,
    pub node: N,
    pub working_heap: H,
    pub transitions: Vec<ExplainerStep<H, ExplainerResult<N, H, R>>>,
}

impl<N, H, R> ExplainerHeap<N, H, R> {
    /// A heap for `node` that starts from `working_heap`, with no step yet.
    pub fn new(node: N, working_heap: H) -> (res: Self)
        ensures
            res.node == node,
            res.working_heap == working_heap,
            res.transitions@.len() == 0,
    {
        ExplainerHeap { node, working_heap, transitions: Vec::new() }
    }
}

impl<N, H, R> ExplainerResult<N, H, R> {
    /// The finished heap this result carries.
    pub open spec fn heap_of(self) -> ExplainerHeap<N, H, ExplainerResult<N, H, R>> {
        ExplainerHeap { node: self.node, working_heap: self.working_heap, transitions: self.transitions }
    }

    /// The finished heap this result carries, taken out.
    pub fn into_heap(self) -> (h: ExplainerHeap<N, H, ExplainerResult<N, H, R>>)
        ensures h == self.heap_of(),
    {
        ExplainerHeap { node: self.node, working_heap: self.working_heap, transitions: self.transitions }
    }
}

/// `b` copies `a` step by step: each resulting heap is a clone, and each
/// incoming result a copy in the sense of `copy`.
pub open spec fn steps_copied<H: Clone, C>(copy: spec_fn(C, C) -> bool, a: Seq<ExplainerStep<H, C>>, b: Seq<ExplainerStep<H, C>>) -> bool {
    &&& a.len() == b.len()
    &&& forall|i: int| 0 <= i < a.len() ==>
        cloned::<H>(a[i].resulting_heap, #[trigger] b[i].resulting_heap)
        && copy(a[i].incoming_result, b[i].incoming_result)
}

/// `b` is a deep copy of `a`: its result, node and working heap are clones,
/// and its steps copy those of `a`, each incoming result deeply.
pub open spec fn result_cloned<N: Clone, H: Clone, R: Clone>(a: ExplainerResult<N, H, R>, b: ExplainerResult<N, H, R>) -> bool
    decreases a,
{
    &&& cloned::<R>(a.orig_result, b.orig_result)
    &&& cloned::<N>(a.node, b.node)
    &&& cloned::<H>(a.working_heap, b.working_heap)
    &&& a.transitions@.len() == b.transitions@.len()
    &&& forall|i: int| 0 <= i < a.transitions@.len() ==>
        cloned::<H>(a.transitions@[i].resulting_heap, #[trigger] b.transitions@[i].resulting_heap)
        && result_cloned(a.transitions@[i].incoming_result, b.transitions@[i].incoming_result)
}

/// A deep copy copies every part: the result, the node and the finished
/// working heap are clones, there are as many steps, and each step's heap is
/// a clone and its incoming result again a deep copy.
pub proof fn deep_copy_copies_every_part<N: Clone, H: Clone, R: Clone>(a: ExplainerResult<N, H, R>, b: ExplainerResult<N, H, R>)
    requires
        result_cloned(a, b),
    ensures
        cloned::<R>(a.orig_result, b.orig_result),
        cloned::<N>(a.node, b.node),
        cloned::<H>(a.working_heap, b.working_heap),
        b.transitions@.len() == a.transitions@.len(),
        forall|i: int| 0 <= i < a.transitions@.len() ==>
            cloned::<H>(a.transitions@[i].resulting_heap, #[trigger] b.transitions@[i].resulting_heap)
            && cloned::<R>(a.transitions@[i].incoming_result.orig_result, b.transitions@[i].incoming_result.orig_result)
            && cloned::<H>(a.transitions@[i].incoming_result.working_heap, b.transitions@[i].incoming_result.working_heap)
            && cloned::<N>(a.transitions@[i].incoming_result.node, b.transitions@[i].incoming_result.node),
{
    assert forall|i: int| 0 <= i < a.transitions@.len() implies
        cloned::<H>(a.transitions@[i].resulting_heap, #[trigger] b.transitions@[i].resulting_heap)
        && cloned::<R>(a.transitions@[i].incoming_result.orig_result, b.transitions@[i].incoming_result.orig_result)
        && cloned::<H>(a.transitions@[i].incoming_result.working_heap, b.transitions@[i].incoming_result.working_heap)
        && cloned::<N>(a.transitions@[i].incoming_result.node, b.transitions@[i].incoming_result.node) by {
        assert(cloned::<H>(a.transitions@[i].resulting_heap, b.transitions@[i].resulting_heap));
        assert(result_cloned(a.transitions@[i].incoming_result, b.transitions@[i].incoming_result));
    }
}

/// The copy relation of results of an explaining fold.
pub open spec fn result_copy<N: Clone, H: Clone, R: Clone>() -> spec_fn(ExplainerResult<N, H, R>, ExplainerResult<N, H, R>) -> bool {
    |a: ExplainerResult<N, H, R>, b: ExplainerResult<N, H, R>| result_cloned(a, b)
}

/// The copy relation of a clonable type: `clone`.
pub open spec fn clone_copy<R: Clone>() -> spec_fn(R, R) -> bool {
    |a: R, b: R| cloned::<R>(a, b)
}

impl<N: Clone, H: Clone, R: Clone> ExplainerResult<N, H, R> {
    /// A deep copy: every node, heap and result in it cloned.
    pub fn deep_clone(&self) -> (c: Self)
        ensures result_cloned(*self, c),
        decreases *self,
    {
        let steps = copy_result_steps(&self.transitions);
        ExplainerResult {
            orig_result: self.orig_result.clone(),
            node: self.node.clone(),
            working_heap: self.working_heap.clone(),
            transitions: steps,
        }
    }
}

/// Copies the steps of an explaining heap, each incoming result deeply.
pub fn copy_result_steps<N: Clone, H: Clone, R: Clone>(v: &Vec<ExplainerStep<H, ExplainerResult<N, H, R>>>)
    -> (w: Vec<ExplainerStep<H, ExplainerResult<N, H, R>>>)
    ensures steps_copied(result_copy(), v@, w@),
    decreases *v,
{
    let mut w: Vec<ExplainerStep<H, ExplainerResult<N, H, R>>> = Vec::new();
    let mut i: usize = 0;
    while i < v.len()
        invariant
            i <= v@.len(),
            w@.len() == i,
            forall|j: int| 0 <= j < i ==>
                cloned::<H>(v@[j].resulting_heap, #[trigger] w@[j].resulting_heap)
                && result_cloned(v@[j].incoming_result, w@[j].incoming_result),
        decreases v@.len() - i,
    {
        assert(decreases_to!(*v => v@[i as int].incoming_result));
        let inc = v[i].incoming_result.deep_clone();
        let hp = v[i].resulting_heap.clone();
        w.push(ExplainerStep { incoming_result: inc, resulting_heap: hp });
        i += 1;
    }
    w
}

/// Copies steps whose incoming results clone.
pub fn clone_steps<H: Clone, R: Clone>(v: &Vec<ExplainerStep<H, R>>) -> (w: Vec<ExplainerStep<H, R>>)
    ensures steps_copied(clone_copy(), v@, w@),
{
    let mut w: Vec<ExplainerStep<H, R>> = Vec::new();
    let mut i: usize = 0;
    while i < v.len()
        invariant
            i <= v@.len(),
            w@.len() == i,
            forall|j: int| 0 <= j < i ==>
                cloned::<H>(v@[j].resulting_heap, #[trigger] w@[j].resulting_heap)
                && cloned::<R>(v@[j].incoming_result, w@[j].incoming_result),
        decreases v@.len() - i,
    {
        let inc = v[i].incoming_result.clone();
        let hp = v[i].resulting_heap.clone();
        w.push(ExplainerStep { incoming_result: inc, resulting_heap: hp });
        i += 1;
    }
    w
}

/// `new_init` starts an explaining heap: a clone of the node, an answer of
/// `init` on it as working heap, and no step; it may be called where `init` may.
pub open spec fn explained_init<N: Clone, H, C, FI, GI>(init: FI, new_init: GI) -> bool
    where FI: Fn(&N) -> H, GI: Fn(&N) -> ExplainerHeap<N, H, C>,
{
    &&& forall|n: &N| call_requires(init, (n,)) ==> #[trigger] call_requires(new_init, (n,))
    &&& forall|n: &N, h: ExplainerHeap<N, H, C>| #[trigger] call_ensures(new_init, (n,), h) ==>
        cloned::<N>(*n, h.node) && call_ensures(init, (n,), h.working_heap) && h.transitions@.len() == 0
}

/// `new_acc` is `acc` on the working heap, with the explained result
/// `inner(c)` of each incoming child `c`, and it records the step: the node
/// is cloned, the earlier steps copied, and one step holding a copy of `c`
/// and a clone of the new working heap is added. It may be called where
/// `acc` may.
pub open spec fn explained_acc<N: Clone, H: Clone, R, C, FA, GA>(
    acc: FA,
    inner: spec_fn(C) -> R,
    copy: spec_fn(C, C) -> bool,
    new_acc: GA,
) -> bool
    where FA: Fn(&H, &R) -> H, GA: Fn(&ExplainerHeap<N, H, C>, &C) -> ExplainerHeap<N, H, C>,
{
    &&& forall|h: &ExplainerHeap<N, H, C>, c: &C|
        call_requires(acc, (&h.working_heap, &inner(*c))) ==> #[trigger] call_requires(new_acc, (h, c))
    &&& forall|h: &ExplainerHeap<N, H, C>, c: &C, h2: ExplainerHeap<N, H, C>|
        #[trigger] call_ensures(new_acc, (h, c), h2) ==> {
            &&& cloned::<N>(h.node, h2.node)
            &&& call_ensures(acc, (&h.working_heap, &inner(*c)), h2.working_heap)
            &&& h2.transitions@.len() == h.transitions@.len() + 1
            &&& steps_copied(copy, h.transitions@, h2.transitions@.drop_last())
            &&& copy(*c, h2.transitions@.last().incoming_result)
            &&& cloned::<H>(h2.working_heap, h2.transitions@.last().resulting_heap)
        }
}

/// `(new_init, new_acc, new_fin)` is the explaining fold of `(init, acc,
/// fin)`: heaps as in [`explained_init`] and [`explained_acc`], with each
/// child's explained result in its `orig_result`; the new finalize answers the
/// result of `fin` on the working heap together with a copy of the heap.
pub open spec fn explained<N: Clone, H: Clone, R: Clone, FI, FA, FF, GI, GA, GF>(
    init: FI, acc: FA, fin: FF,
    new_init: GI, new_acc: GA, new_fin: GF,
) -> bool
    where
        FI: Fn(&N) -> H, FA: Fn(&H, &R) -> H, FF: Fn(&H) -> R,
        GI: Fn(&N) -> ExplainerHeap<N, H, ExplainerResult<N, H, R>>,
        GA: Fn(&ExplainerHeap<N, H, ExplainerResult<N, H, R>>, &ExplainerResult<N, H, R>)
            -> ExplainerHeap<N, H, ExplainerResult<N, H, R>>,
        GF: Fn(&ExplainerHeap<N, H, ExplainerResult<N, H, R>>) -> ExplainerResult<N, H, R>,
{
    &&& explained_init(init, new_init)
    &&& explained_acc(acc, |c: ExplainerResult<N, H, R>| c.orig_result, result_copy(), new_acc)
    &&& forall|h: &ExplainerHeap<N, H, ExplainerResult<N, H, R>>|
        call_requires(fin, (&h.working_heap,)) ==> #[trigger] call_requires(new_fin, (h,))
    &&& forall|h: &ExplainerHeap<N, H, ExplainerResult<N, H, R>>, out: ExplainerResult<N, H, R>|
        #[trigger] call_ensures(new_fin, (h,), out) ==> {
            &&& call_ensures(fin, (&h.working_heap,), out.orig_result)
            &&& cloned::<N>(h.node, out.node)
            &&& cloned::<H>(h.working_heap, out.working_heap)
            &&& steps_copied(result_copy(), h.transitions@, out.transitions@)
        }
}

/// `(new_init, new_acc, new_fin)` is the describing fold of `(init, acc,
/// fin)`: heaps as in [`explained_init`] and [`explained_acc`], with child
/// results of the explained type; the new finalize runs the formatter's
/// finalize on its init of the heap, hands that string to `emit`, and answers
/// the result of `fin` on the working heap. It may be called where `fin`, the
/// formatter and `emit` may.
pub open spec fn described<N: Clone, H: Clone, R: Clone, S, FI, FA, FF, TI, TF, E, GI, GA, GF>(
    init: FI, acc: FA, fin: FF,
    fmt_init: TI, fmt_fin: TF, emit: E,
    new_init: GI, new_acc: GA, new_fin: GF,
) -> bool
    where
        FI: Fn(&N) -> H, FA: Fn(&H, &R) -> H, FF: Fn(&H) -> R,
        TI: Fn(&ExplainerHeap<N, H, R>) -> S, TF: Fn(&S) -> String, E: Fn(&String),
        GI: Fn(&N) -> ExplainerHeap<N, H, R>,
        GA: Fn(&ExplainerHeap<N, H, R>, &R) -> ExplainerHeap<N, H, R>,
        GF: Fn(&ExplainerHeap<N, H, R>) -> R,
{
    &&& explained_init(init, new_init)
    &&& explained_acc(acc, |c: R| c, clone_copy(), new_acc)
    &&& forall|h: &ExplainerHeap<N, H, R>|
        (call_requires(fin, (&h.working_heap,)) && describable(fmt_init, fmt_fin, emit, *h))
            ==> #[trigger] call_requires(new_fin, (h,))
    &&& forall|h: &ExplainerHeap<N, H, R>, r: R| #[trigger] call_ensures(new_fin, (h,), r) ==>
        call_ensures(fin, (&h.working_heap,), r) && described_once(fmt_init, fmt_fin, emit, *h)
}

/// The formatter may render `h` and `emit` may take the rendering.
pub open spec fn describable<N, H, R, S, TI, TF, E>(fmt_init: TI, fmt_fin: TF, emit: E, h: ExplainerHeap<N, H, R>) -> bool
    where TI: Fn(&ExplainerHeap<N, H, R>) -> S, TF: Fn(&S) -> String, E: Fn(&String),
{
    &&& call_requires(fmt_init, (&h,))
    &&& forall|st: S| call_ensures(fmt_init, (&h,), st) ==> #[trigger] call_requires(fmt_fin, (&st,))
    &&& forall|st: S, s: String| call_ensures(fmt_init, (&h,), st) && #[trigger] call_ensures(fmt_fin, (&st,), s)
        ==> call_requires(emit, (&s,))
}

/// `emit` was handed the formatter's finalize of its init on `h`.
pub open spec fn described_once<N, H, R, S, TI, TF, E>(fmt_init: TI, fmt_fin: TF, emit: E, h: ExplainerHeap<N, H, R>) -> bool
    where TI: Fn(&ExplainerHeap<N, H, R>) -> S, TF: Fn(&S) -> String, E: Fn(&String),
{
    exists|st: S, s: String|
        call_ensures(fmt_init, (&h,), st) && #[trigger] call_ensures(fmt_fin, (&st,), s) && #[trigger] call_ensures(emit, (&s,), ())
}

} // verus!
