//! `EveryPush`: notify on every successful push.
use vstd::prelude::*;
use super::{notify_count, WakeStrategy};

verus! {

/// Notify on every push.
pub struct EveryPush;

/// Configuration of [`EveryPush`].
#[derive(Clone, Copy, Default)]
pub struct EveryPushSpec;

impl WakeStrategy for EveryPush {
    type Spec = EveryPushSpec;
    type State = ();

    open spec fn initial(spec: EveryPushSpec) -> () {
        ()
    }

    open spec fn notifies(s: ()) -> bool {
        true
    }

    open spec fn stepped(s: ()) -> () {
        ()
    }

    open spec fn can_step(s: ()) -> bool {
        true
    }

    open spec fn reset_state() -> () {
        ()
    }

    fn init_state(_spec: &EveryPushSpec) -> (s: ()) {
    }

    fn should_notify(_state: &mut ()) -> (b: bool) {
        true
    }

    fn reset(_state: &mut ()) {
    }
}

/// Every push of a batch notifies: `n` pushes give `n` notifications.
pub proof fn every_push_notifies_each_time(n: nat)
    ensures notify_count::<EveryPush>(EveryPush::reset_state(), n) == n,
    decreases n,
{
    if n > 0 {
        every_push_notifies_each_time((n - 1) as nat);
    }
}

} // verus!
