//! Wake strategies: after each successful push, whether to notify an idle
//! worker.
//!
//! - `EveryPush`: notify on every push
//! - `OncePerBatch`: notify on the first push of each visit batch only
//! - `EveryK`: notify on the first push and on every K-th one
pub mod every_k;
pub mod every_push;
pub mod once_per_batch;

pub use every_k::{EveryK, EveryKSpec};
pub use every_push::{EveryPush, EveryPushSpec};
pub use once_per_batch::{OncePerBatch, OncePerBatchSpec};

use vstd::prelude::*;

verus! {

/// When to notify idle workers of pushed tasks. `State` is per-worker state,
/// made by `init_state` and reset before each visit batch.
pub trait WakeStrategy {
    type Spec;
    type State;

    /// The state `init_state` makes from a configuration.
    spec fn initial(spec: Self::Spec) -> Self::State;

    /// Whether `should_notify` answers `true` in state `s`.
    spec fn notifies(s: Self::State) -> bool;

    /// The state after `should_notify` in state `s`.
    spec fn stepped(s: Self::State) -> Self::State;

    /// Where `should_notify` may be called.
    spec fn can_step(s: Self::State) -> bool;

    /// The state `reset` leaves.
    spec fn reset_state() -> Self::State;

    /// The first state for a worker.
    fn init_state(spec: &Self::Spec) -> (s: Self::State)
        ensures s == Self::initial(*spec);

    /// Called after each successful push: whether to wake an idle worker.
    fn should_notify(state: &mut Self::State) -> (b: bool)
        requires Self::can_step(*old(state)),
        ensures
            b == Self::notifies(*old(state)),
            *final(state) == Self::stepped(*old(state));

    /// Called before each visit batch.
    fn reset(state: &mut Self::State)
        ensures *final(state) == Self::reset_state();
}

/// How many of `n` successive `should_notify` calls from state `s` answer `true`.
pub open spec fn notify_count<W: WakeStrategy>(s: W::State, n: nat) -> nat
    decreases n,
{
    if n == 0 {
        0
    } else {
        (if W::notifies(s) { 1nat } else { 0nat }) + notify_count::<W>(W::stepped(s), (n - 1) as nat)
    }
}

} // verus!
