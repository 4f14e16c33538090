//! Accumulation strategies: fold child results as they arrive, or all at
//! once when the last one is in. Either way the results are accumulated in
//! slot order, and the last event returns the node's result.
use vstd::prelude::*;
use crate::exec::funnel::cps::chain::{chain_result, unwrapped, FoldChain, SlotRef};
use crate::fold::Fold;

verus! {

/// How a chain accumulates delivered child results.
pub trait AccumulateStrategy {
    type Spec;

    /// Delivers `result` into `slot`; answers the node's result when this is
    /// the last event.
    fn deliver<N, H, R, FI, FA, FF>(chain: &mut FoldChain<H, R>, slot: SlotRef, result: R, fold: &Fold<FI, FA, FF>)
        -> (res: Option<R>)
        where FI: Fn(&N) -> H, FA: Fn(&H, &R) -> H, FF: Fn(&H) -> R,
        requires
            old(chain).wf(fold.acc_fn()),
            !old(chain).finished(),
            slot.0 < old(chain).results().len(),
            old(chain).results()[slot.0 as int] is None,
            forall|h: &H, r: &R| #[trigger] call_requires(fold.acc_fn(), (h, r)),
            forall|h: &H| #[trigger] call_requires(fold.fin_fn(), (h,)),
        ensures
            final(chain).wf(fold.acc_fn()),
            final(chain).results() == old(chain).results().update(slot.0 as int, Some(result)),
            final(chain).start() == old(chain).start(),
            final(chain).total_known() == old(chain).total_known(),
            res is Some <==> old(chain).total_known() && final(chain).all_delivered(),
            res is Some ==> final(chain).finished()
                && chain_result(fold.acc_fn(), fold.fin_fn(), final(chain).start(), unwrapped(final(chain).results()), res.unwrap()),
            res is None ==> !final(chain).finished();

    /// Marks that every slot is handed out; answers the node's result when
    /// this is the last event.
    fn set_total<N, H, R, FI, FA, FF>(chain: &mut FoldChain<H, R>, fold: &Fold<FI, FA, FF>) -> (res: Option<R>)
        where FI: Fn(&N) -> H, FA: Fn(&H, &R) -> H, FF: Fn(&H) -> R,
        requires
            old(chain).wf(fold.acc_fn()),
            !old(chain).finished(),
            !old(chain).total_known(),
            forall|h: &H, r: &R| #[trigger] call_requires(fold.acc_fn(), (h, r)),
            forall|h: &H| #[trigger] call_requires(fold.fin_fn(), (h,)),
        ensures
            final(chain).wf(fold.acc_fn()),
            final(chain).results() == old(chain).results(),
            final(chain).start() == old(chain).start(),
            final(chain).total_known(),
            res is Some <==> final(chain).all_delivered(),
            res is Some ==> final(chain).finished()
                && chain_result(fold.acc_fn(), fold.fin_fn(), final(chain).start(), unwrapped(final(chain).results()), res.unwrap()),
            res is None ==> !final(chain).finished();
}

/// Streaming sweep: results are accumulated as they arrive.
pub struct OnArrival;

/// Configuration of [`OnArrival`].
#[derive(Clone, Copy, Default)]
pub struct OnArrivalSpec;

impl AccumulateStrategy for OnArrival {
    type Spec = OnArrivalSpec;

    fn deliver<N, H, R, FI, FA, FF>(chain: &mut FoldChain<H, R>, slot: SlotRef, result: R, fold: &Fold<FI, FA, FF>)
        -> (res: Option<R>)
        where FI: Fn(&N) -> H, FA: Fn(&H, &R) -> H, FF: Fn(&H) -> R,
    {
        chain.deliver_and_sweep(slot, result, fold)
    }

    fn set_total<N, H, R, FI, FA, FF>(chain: &mut FoldChain<H, R>, fold: &Fold<FI, FA, FF>) -> (res: Option<R>)
        where FI: Fn(&N) -> H, FA: Fn(&H, &R) -> H, FF: Fn(&H) -> R,
    {
        chain.set_total_and_sweep(fold)
    }
}

/// Bulk sweep: the last event accumulates every result in order.
pub struct OnFinalize;

/// Configuration of [`OnFinalize`].
#[derive(Clone, Copy, Default)]
pub struct OnFinalizeSpec;

impl AccumulateStrategy for OnFinalize {
    type Spec = OnFinalizeSpec;

    fn deliver<N, H, R, FI, FA, FF>(chain: &mut FoldChain<H, R>, slot: SlotRef, result: R, fold: &Fold<FI, FA, FF>)
        -> (res: Option<R>)
        where FI: Fn(&N) -> H, FA: Fn(&H, &R) -> H, FF: Fn(&H) -> R,
    {
        chain.deliver_and_finalize(slot, result, fold)
    }

    fn set_total<N, H, R, FI, FA, FF>(chain: &mut FoldChain<H, R>, fold: &Fold<FI, FA, FF>) -> (res: Option<R>)
        where FI: Fn(&N) -> H, FA: Fn(&H, &R) -> H, FF: Fn(&H) -> R,
    {
        chain.set_total_and_finalize(fold)
    }
}

} // verus!
