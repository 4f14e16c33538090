//! Fold combinators on bare phase closures.
//!
//! Each function takes fold phases and a transformation and returns new
//! phases. The contracts say, for each new phase, when it may be called and
//! what every result it returns is made of.
use vstd::prelude::*;

verus! {

/// Changes the result type of a fold from `R` to `RNew`.
///
/// The new accumulate maps each incoming `RNew` back to an `R` before the old
/// accumulate sees it; the new finalize maps the old result forward.
pub fn map_fold<N, H, R, RNew, FI, FA, FF, M, B>(
    init: FI,
    acc: FA,
    fin: FF,
    mapper: M,
    backmapper: B,
) -> (res: (impl Fn(&N) -> H, impl Fn(&H, &RNew) -> H, impl Fn(&H) -> RNew))
    where
        FI: Fn(&N) -> H,
        FA: Fn(&H, &R) -> H,
        FF: Fn(&H) -> R,
        M: Fn(&R) -> RNew,
        B: Fn(&RNew) -> R,
    ensures
        forall|n: &N| call_requires(init, (n,)) ==> #[trigger] call_requires(res.0, (n,)),
        forall|n: &N, h: H| #[trigger] call_ensures(res.0, (n,), h) ==> call_ensures(init, (n,), h),
        forall|h: &H, r: &RNew|
            (call_requires(backmapper, (r,)) && forall|b: R| call_ensures(backmapper, (r,), b) ==> call_requires(acc, (h, &b)))
                ==> #[trigger] call_requires(res.1, (h, r)),
        forall|h: &H, r: &RNew, h2: H| #[trigger] call_ensures(res.1, (h, r), h2) ==>
            exists|b: R| call_ensures(backmapper, (r,), b) && call_ensures(acc, (h, &b), h2),
        forall|h: &H|
            (call_requires(fin, (h,)) && forall|r: R| call_ensures(fin, (h,), r) ==> call_requires(mapper, (&r,)))
                ==> #[trigger] call_requires(res.2, (h,)),
        forall|h: &H, out: RNew| #[trigger] call_ensures(res.2, (h,), out) ==>
            exists|r: R| call_ensures(fin, (h,), r) && call_ensures(mapper, (&r,), out),
{
    let new_init = move |n: &N| -> (h: H)
        requires call_requires(&init, (n,)),
        ensures call_ensures(&init, (n,), h),
    { init(n) };
    let new_acc = move |h: &H, r: &RNew| -> (h2: H)
        requires
            call_requires(&backmapper, (r,)),
            forall|b: R| call_ensures(&backmapper, (r,), b) ==> call_requires(&acc, (h, &b)),
        ensures
            exists|b: R| call_ensures(&backmapper, (r,), b) && call_ensures(&acc, (h, &b), h2),
    {
        let b = backmapper(r);
        acc(h, &b)
    };
    let new_fin = move |h: &H| -> (out: RNew)
        requires
            call_requires(&fin, (h,)),
            forall|r: R| call_ensures(&fin, (h,), r) ==> call_requires(&mapper, (&r,)),
        ensures
            exists|r: R| call_ensures(&fin, (h,), r) && call_ensures(&mapper, (&r,), out),
    {
        let r = fin(h);
        mapper(&r)
    };
    (new_init, new_acc, new_fin)
}


/// Changes the node type of a fold from `N` to `NewN`: the new init first
/// turns the node into an `N`. Accumulate and finalize keep their behaviour.
pub fn contramap_fold<N, H, R, NewN, FI, FA, FF, T>(
    init: FI,
    acc: FA,
    fin: FF,
    transform: T,
) -> (res: (impl Fn(&NewN) -> H, impl Fn(&H, &R) -> H, impl Fn(&H) -> R))
    where
        FI: Fn(&N) -> H,
        FA: Fn(&H, &R) -> H,
        FF: Fn(&H) -> R,
        T: Fn(&NewN) -> N,
    ensures
        forall|n: &NewN|
            (call_requires(transform, (n,)) && forall|m: N| call_ensures(transform, (n,), m) ==> call_requires(init, (&m,)))
                ==> #[trigger] call_requires(res.0, (n,)),
        forall|n: &NewN, h: H| #[trigger] call_ensures(res.0, (n,), h) ==>
            exists|m: N| call_ensures(transform, (n,), m) && call_ensures(init, (&m,), h),
        forall|h: &H, r: &R| call_requires(acc, (h, r)) ==> #[trigger] call_requires(res.1, (h, r)),
        forall|h: &H, r: &R, h2: H| #[trigger] call_ensures(res.1, (h, r), h2) ==> call_ensures(acc, (h, r), h2),
        forall|h: &H| call_requires(fin, (h,)) ==> #[trigger] call_requires(res.2, (h,)),
        forall|h: &H, r: R| #[trigger] call_ensures(res.2, (h,), r) ==> call_ensures(fin, (h,), r),
{
    let new_init = move |n: &NewN| -> (h: H)
        requires
            call_requires(&transform, (n,)),
            forall|m: N| call_ensures(&transform, (n,), m) ==> call_requires(&init, (&m,)),
        ensures
            exists|m: N| call_ensures(&transform, (n,), m) && call_ensures(&init, (&m,), h),
    {
        let m = transform(n);
        init(&m)
    };
    let new_acc = move |h: &H, r: &R| -> (h2: H)
        requires call_requires(&acc, (h, r)),
        ensures call_ensures(&acc, (h, r), h2),
    { acc(h, r) };
    let new_fin = move |h: &H| -> (r: R)
        requires call_requires(&fin, (h,)),
        ensures call_ensures(&fin, (h,), r),
    { fin(h) };
    (new_init, new_acc, new_fin)
}

/// Wraps the init phase: each call of the result hands the node and the
/// given init to `wrapper`, whose answer is the heap.
pub fn wrap_init<N, H, FI, W>(init: FI, wrapper: W) -> (res: impl Fn(&N) -> H)
    where
        FI: Fn(&N) -> H,
        W: Fn(&N, &FI) -> H,
    ensures
        forall|n: &N| call_requires(wrapper, (n, &init)) ==> #[trigger] call_requires(res, (n,)),
        forall|n: &N, h: H| #[trigger] call_ensures(res, (n,), h) ==> call_ensures(wrapper, (n, &init), h),
{
    move |n: &N| -> (h: H)
        requires call_requires(&wrapper, (n, &init)),
        ensures call_ensures(&wrapper, (n, &init), h),
    { wrapper(n, &init) }
}

/// Wraps the accumulate phase: each call of the result hands the heap, the
/// child result and the given accumulate to `wrapper`.
pub fn wrap_accumulate<H, R, FA, W>(acc: FA, wrapper: W) -> (res: impl Fn(&H, &R) -> H)
    where
        FA: Fn(&H, &R) -> H,
        W: Fn(&H, &R, &FA) -> H,
    ensures
        forall|h: &H, r: &R| call_requires(wrapper, (h, r, &acc)) ==> #[trigger] call_requires(res, (h, r)),
        forall|h: &H, r: &R, h2: H| #[trigger] call_ensures(res, (h, r), h2) ==> call_ensures(wrapper, (h, r, &acc), h2),
{
    move |h: &H, r: &R| -> (h2: H)
        requires call_requires(&wrapper, (h, r, &acc)),
        ensures call_ensures(&wrapper, (h, r, &acc), h2),
    { wrapper(h, r, &acc) }
}

/// Wraps the finalize phase: each call of the result hands the heap and the
/// given finalize to `wrapper`, whose answer is the result.
pub fn wrap_finalize<H, R, FF, W>(fin: FF, wrapper: W) -> (res: impl Fn(&H) -> R)
    where
        FF: Fn(&H) -> R,
        W: Fn(&H, &FF) -> R,
    ensures
        forall|h: &H| call_requires(wrapper, (h, &fin)) ==> #[trigger] call_requires(res, (h,)),
        forall|h: &H, r: R| #[trigger] call_ensures(res, (h,), r) ==> call_ensures(wrapper, (h, &fin), r),
{
    move |h: &H| -> (r: R)
        requires call_requires(&wrapper, (h, &fin)),
        ensures call_ensures(&wrapper, (h, &fin), r),
    { wrapper(h, &fin) }
}

} // verus!
