//! `EveryK`: notify on the first push and on every K-th push of a batch.
use vstd::prelude::*;
use super::{notify_count, WakeStrategy};

verus! {

/// Notify on the first push and on every `K`-th one.
pub struct EveryK<const K: u32>;

/// Configuration of [`EveryK`].
#[derive(Clone, Copy, Default)]
pub struct EveryKSpec;

impl<const K: u32> WakeStrategy for EveryK<K> {
    type Spec = EveryKSpec;
    type State = u32;

    open spec fn initial(spec: EveryKSpec) -> u32 {
        0
    }

    open spec fn notifies(count: u32) -> bool {
        count + 1 == 1 || (count + 1) % (K as int) == 0
    }

    open spec fn stepped(count: u32) -> u32 {
        (count + 1) as u32
    }

    open spec fn can_step(count: u32) -> bool {
        count < u32::MAX && (count == 0 || K > 0)
    }

    open spec fn reset_state() -> u32 {
        0
    }

    fn init_state(_spec: &EveryKSpec) -> (s: u32) {
        0
    }

    fn should_notify(count: &mut u32) -> (b: bool) {
        *count += 1;
        *count == 1 || *count % K == 0
    }

    fn reset(count: &mut u32) {
        *count = 0;
    }
}

/// With `K == 1`, every push of a batch notifies, as with `EveryPush`.
pub proof fn every_1_notifies_each_time(n: nat)
    ensures notify_count::<EveryK<1>>(EveryK::<1>::reset_state(), n) == n,
{
    every_1_from(0, n);
}

proof fn every_1_from(c: u32, n: nat)
    ensures notify_count::<EveryK<1>>(c, n) == n,
    decreases n,
{
    if n > 0 {
        assert((c + 1) % 1 == 0);
        every_1_from((c + 1) as u32, (n - 1) as nat);
    }
}

/// Stepping a count past a multiple of `k` adds one to its quotient.
proof fn lemma_next_quotient(x: int, k: int)
    requires
        x >= 0,
        k > 0,
    ensures
        (x + 1) / k == x / k + (if (x + 1) % k == 0 { 1int } else { 0int }),
{
    vstd::arithmetic::div_mod::lemma_fundamental_div_mod(x, k);
    let q = x / k;
    let r = x % k;
    assert(x == q * k + r) by (nonlinear_arith)
        requires x == k * q + r;
    if r == k - 1 {
        assert(x + 1 == (q + 1) * k + 0) by (nonlinear_arith)
            requires x == q * k + r, r == k - 1;
        vstd::arithmetic::div_mod::lemma_fundamental_div_mod_converse(x + 1, k, q + 1, 0);
    } else {
        vstd::arithmetic::div_mod::lemma_fundamental_div_mod_converse(x + 1, k, q, r + 1);
    }
}

/// From a count `c >= 1`, `n` pushes notify once per multiple of `K` passed.
proof fn every_k_from<const K: u32>(c: u32, n: nat)
    requires
        K >= 2,
        c >= 1,
        c + n <= u32::MAX,
    ensures
        notify_count::<EveryK<K>>(c, n) == (c + n) / (K as int) - (c as int) / (K as int),
    decreases n,
{
    if n > 0 {
        lemma_next_quotient(c as int, K as int);
        every_k_from::<K>((c + 1) as u32, (n - 1) as nat);
    }
}

/// With `K >= 2`, a batch of `n >= 1` pushes after a reset notifies on the
/// first push and on every `K`-th one: `1 + n / K` times.
pub proof fn every_k_notifies_first_and_every_kth<const K: u32>(n: nat)
    requires
        K >= 2,
        1 <= n <= u32::MAX,
    ensures
        notify_count::<EveryK<K>>(EveryK::<K>::reset_state(), n) == 1 + (n as int) / (K as int),
{
    every_k_from::<K>(1, (n - 1) as nat);
    assert(1int / (K as int) == 0) by {
        vstd::arithmetic::div_mod::lemma_fundamental_div_mod_converse(1, K as int, 0, 1);
    }
}

} // verus!
