use lib::domain::{local, owned, shared, Local, Owned, Shared};
use lib::exec::funnel::policy::wake::{EveryK, EveryKSpec, EveryPush, EveryPushSpec, OncePerBatch, OncePerBatchSpec, WakeStrategy};
use lib::exec::fused;
use lib::exec::Exec;
use lib::fold::{simple_fold, Fold};
use lib::graph::edgy::treeish_from;
use lib::graph::treeish;

struct Node {
    val: u32,
    kids: Vec<Node>,
}

fn chain(depth: u32) -> Node {
    let mut n = Node { val: depth, kids: vec![] };
    for d in (0..depth).rev() {
        n = Node { val: d, kids: vec![n] };
    }
    n
}

fn notifications<W: WakeStrategy>(state: &mut W::State, pushes: usize) -> usize {
    let mut count = 0;
    W::reset(state);
    for _ in 0..pushes {
        if W::should_notify(state) {
            count += 1;
        }
    }
    count
}

#[test]
fn every_push_notifies_on_each_push() {
    let mut s = EveryPush::init_state(&EveryPushSpec);
    assert_eq!(notifications::<EveryPush>(&mut s, 7), 7);
}

#[test]
fn once_per_batch_notifies_once() {
    let mut s = OncePerBatch::init_state(&OncePerBatchSpec);
    assert!(!s);
    assert_eq!(notifications::<OncePerBatch>(&mut s, 5), 1);
    // a new batch notifies again
    assert_eq!(notifications::<OncePerBatch>(&mut s, 3), 1);
}

#[test]
fn every_k_notifies_first_and_every_kth() {
    let mut s = EveryK::<4>::init_state(&EveryKSpec);
    assert_eq!(s, 0);
    // pushes 1, 4, 8 notify
    assert_eq!(notifications::<EveryK<4>>(&mut s, 9), 3);
    assert_eq!(notifications::<EveryK<2>>(&mut s, 5), 3);
    assert_eq!(notifications::<EveryK<1>>(&mut s, 5), 5);
}

#[test]
fn exec_binds_strategy() {
    let e: Exec<Shared, fused::Spec> = Exec::new(fused::Spec);
    let _: &fused::Spec = e.inner();
    let _: fused::Spec = e.into_inner();
    let _: Exec<Local, fused::Spec> = local::exec(fused::Spec);
    let _: Exec<Owned, fused::Spec> = owned::exec(fused::Spec);
}

#[test]
fn exec_session_runs_inside() {
    let e = shared::exec(fused::Spec);
    let f = simple_fold(|n: &u32| *n, |a: &u32, c: &u32| a + c);
    let g = treeish(|n: &u32| if *n < 3 { vec![n + 1] } else { vec![] });
    let r = e.session(|s| s.run(&f, &g, &0));
    assert_eq!(r, 6);
}

fn kids_of(n: &Node) -> &[Node] {
    &n.kids[..]
}

impl Clone for Node {
    fn clone(&self) -> Node {
        Node { val: self.val, kids: self.kids.clone() }
    }
}

#[test]
fn deep_chain_sum() {
    let tree = chain(100);
    let f = Fold::new(|n: &Node| n.val as u64, |h: &u64, c: &u64| h + c, |h: &u64| *h);
    let g = treeish_from(kids_of);
    assert_eq!(fused::Spec.run(&f, &g, &tree), 5050);
}

#[test]
fn treeish_from_copies_children() {
    let tree = Node { val: 1, kids: vec![Node { val: 2, kids: vec![] }, Node { val: 3, kids: vec![] }] };
    let g = treeish_from(kids_of);
    let vals: Vec<u32> = g.apply(&tree).iter().map(|k| k.val).collect();
    assert_eq!(vals, vec![2, 3]);
}

#[test]
fn runs_agree() {
    let f = simple_fold(|n: &u32| n * 2, |a: &u32, c: &u32| a + c);
    let g = treeish(|n: &u32| if *n < 5 { vec![n + 1, n + 2] } else { vec![] });
    let e = shared::exec(fused::Spec);
    let a = e.run(&f, &g, &0);
    let b = e.run(&f, &g, &0);
    assert_eq!(a, b);
    assert_eq!(a, fused::Spec.run(&f, &g, &0));
}
