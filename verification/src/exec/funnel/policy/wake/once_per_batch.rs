//! `OncePerBatch`: notify only on the first push of each visit batch.
use vstd::prelude::*;
use super::{notify_count, WakeStrategy};

verus! {

/// Notify on the first push of a batch only.
pub struct OncePerBatch;

/// Configuration of [`OncePerBatch`].
#[derive(Clone, Copy, Default)]
pub struct OncePerBatchSpec;

impl WakeStrategy for OncePerBatch {
    type Spec = OncePerBatchSpec;
    type State = bool;

    open spec fn initial(spec: OncePerBatchSpec) -> bool {
        false
    }

    open spec fn notifies(s: bool) -> bool {
        !s
    }

    open spec fn stepped(s: bool) -> bool {
        true
    }

    open spec fn can_step(s: bool) -> bool {
        true
    }

    open spec fn reset_state() -> bool {
        false
    }

    fn init_state(_spec: &OncePerBatchSpec) -> (s: bool) {
        false
    }

    fn should_notify(notified: &mut bool) -> (b: bool) {
        if *notified {
            return false;
        }
        *notified = true;
        true
    }

    fn reset(notified: &mut bool) {
        *notified = false;
    }
}

/// Once the first push of a batch has notified, no later push notifies.
proof fn once_notified_stays_quiet(n: nat)
    ensures notify_count::<OncePerBatch>(true, n) == 0,
    decreases n,
{
    if n > 0 {
        once_notified_stays_quiet((n - 1) as nat);
    }
}

/// A batch of `n >= 1` pushes after a reset notifies exactly once.
pub proof fn once_per_batch_notifies_once(n: nat)
    requires n >= 1,
    ensures notify_count::<OncePerBatch>(OncePerBatch::reset_state(), n) == 1,
{
    once_notified_stays_quiet((n - 1) as nat);
}

} // verus!
