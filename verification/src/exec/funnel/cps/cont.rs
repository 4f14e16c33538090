//! Defunctionalized tasks and continuations of the funnel executor.
use vstd::prelude::*;
use crate::exec::funnel::cps::chain::FoldChain;
use crate::exec::funnel::infra::arena::ArenaIdx;
use crate::fold::Fold;
use crate::exec::funnel::infra::cont_arena::ContIdx;

verus! {

/// Work for a worker: fold the subtree below `child` and deliver its result
/// to `cont`.
pub enum FunnelTask<N, H> {
    Walk { child: N, cont: Cont<H> },
}

/// Where a finished result goes.
pub enum Cont<H> {
    /// To the root result cell.
    Root,
    /// Into `heap`, the heap of a parent with a single child, whose own
    /// continuation waits in the continuation arena at `parent_idx`.
    Direct { heap: H, parent_idx: ContIdx },
    /// Into slot `slot` of the chain of the node at `node`.
    Slot { node: ArenaIdx, slot: u32 },
}

/// A node being folded: its accumulation chain and where its result goes.
pub struct ChainNode<H, R> {
    pub chain: FoldChain<H, R>,
    parent_cont: Option<Cont<H>>,
}

impl<H, R> ChainNode<H, R> {
    /// The node's accumulation chain.
    pub closed spec fn node_chain(&self) -> FoldChain<H, R> {
        self.chain
    }

    /// Where this node's result goes, while not yet taken.
    pub closed spec fn parent(&self) -> Option<Cont<H>> {
        self.parent_cont
    }

    /// A node with heap `heap`, to be accumulated with `fold`, whose result
    /// goes to `cont`.
    pub fn new<N, FI, FA, FF>(heap: H, cont: Cont<H>, fold: &Fold<FI, FA, FF>) -> (res: Self)
        where FI: Fn(&N) -> H, FA: Fn(&H, &R) -> H, FF: Fn(&H) -> R,
        ensures
            res.node_chain().wf(fold.acc_fn()),
            res.node_chain().start() == heap,
            res.node_chain().results() == Seq::<Option<R>>::empty(),
            !res.node_chain().total_known(),
            !res.node_chain().finished(),
            res.parent() == Some(cont),
    {
        ChainNode { chain: FoldChain::new(heap, fold), parent_cont: Some(cont) }
    }

    /// Takes where this node's result goes; done once, at finalization.
    pub fn take_parent_cont(&mut self) -> (c: Cont<H>)
        requires old(self).parent() is Some,
        ensures
            c == old(self).parent().unwrap(),
            final(self).parent() is None,
            final(self).node_chain() == old(self).node_chain(),
    {
        self.parent_cont.take().unwrap()
    }
}

/// The cell that receives the result of the root.
pub struct RootCell<R> {
    result: Option<R>,
    done: bool,
}

impl<R> RootCell<R> {
    /// The result set so far, if any.
    pub closed spec fn result(&self) -> Option<R> {
        self.result
    }

    /// Whether a result has been set.
    pub closed spec fn done(&self) -> bool {
        self.done
    }

    /// The cell's invariant: it is done exactly when it holds a result, or
    /// after the result was taken.
    pub closed spec fn wf(&self) -> bool {
        self.result is Some ==> self.done
    }

    /// An empty cell.
    pub fn new() -> (res: Self)
        ensures
            res.wf(),
            !res.done(),
            res.result() is None,
    {
        RootCell { result: None, done: false }
    }

    /// Stores the root result; the cell is done.
    pub fn set(&mut self, r: R)
        ensures
            final(self).wf(),
            final(self).done(),
            final(self).result() == Some(r),
    {
        self.result = Some(r);
        self.done = true;
    }

    /// Whether the root result has been set.
    pub fn is_done(&self) -> (b: bool)
        ensures b == self.done(),
    {
        self.done
    }

    /// Takes the root result out.
    pub fn take(&mut self) -> (r: R)
        requires
            old(self).result() is Some,
        ensures
            r == old(self).result().unwrap(),
            final(self).result() is None,
            final(self).done() == old(self).done(),
    {
        self.result.take().unwrap()
    }
}

} // verus!
