use lib::domain::shared as dom;
use lib::exec::fused;
use lib::fold::combinators::{contramap_fold, map_fold, wrap_accumulate, wrap_finalize, wrap_init};
use lib::fold::transformations::{map_accumulate, map_finalize, map_init};
use lib::fold::explainer::ExplainerHeap;
use lib::fold::{fold, simple_fold, Fold};
use std::cell::RefCell;
use std::rc::Rc;
use lib::graph::{treeish, Edgy};

#[derive(Clone)]
struct N {
    val: i32,
    children: Vec<N>,
}

fn leaf(val: i32) -> N {
    N { val, children: vec![] }
}

fn sample_tree() -> N {
    // 1 -> [2 -> [4, 5], 3]
    N { val: 1, children: vec![N { val: 2, children: vec![leaf(4), leaf(5)] }, leaf(3)] }
}

fn n_graph() -> Edgy<impl Fn(&N) -> Vec<N>> {
    treeish(|n: &N| n.children.clone())
}

#[test]
fn fold_phases_run_as_given() {
    let f = Fold::new(|n: &i32| *n * 10, |h: &i32, r: &i32| h + r, |h: &i32| h + 1);
    assert_eq!(f.init(&4), 40);
    let mut h = 5;
    f.accumulate(&mut h, &7);
    assert_eq!(h, 12);
    assert_eq!(f.finalize(&12), 13);
}

#[test]
fn sum_fold_over_tree() {
    let f = simple_fold(|n: &N| n.val, |a: &i32, c: &i32| a + c);
    let r = dom::exec(fused::Spec).run(&f, &n_graph(), &sample_tree());
    assert_eq!(r, 15);
}

#[test]
fn simple_fold_finalize_clones_heap() {
    let f = simple_fold(|n: &i32| vec![*n], |a: &Vec<i32>, c: &Vec<i32>| [a.clone(), c.clone()].concat());
    assert_eq!(f.finalize(&vec![1, 2]), vec![1, 2]);
}

#[test]
fn fold_constructor_matches_new() {
    let f = fold(|n: &N| n.val, |h: &i32, r: &i32| h.max(r).clone(), |h: &i32| *h);
    let r = fused::Spec.run(&f, &n_graph(), &sample_tree());
    assert_eq!(r, 5);
}

#[test]
fn wrap_init_sees_inner_init() {
    let f = Fold::new(|n: &i32| *n, |h: &i32, r: &i32| h + r, |h: &i32| *h);
    let g = f.wrap_init(|n: &i32, orig: &_| orig(n) * 2);
    assert_eq!(g.init(&21), 42);
    // the other phases are kept
    assert_eq!(g.finalize(&3), 3);
}

#[test]
fn wrap_accumulate_and_finalize() {
    let f = Fold::new(|n: &i32| *n, |h: &i32, r: &i32| h + r, |h: &i32| *h);
    let g = f.wrap_accumulate(|h: &i32, r: &i32, orig: &_| orig(h, r) + 100);
    let mut h = 1;
    g.accumulate(&mut h, &2);
    assert_eq!(h, 103);
    let k = f.wrap_finalize(|h: &i32, orig: &_| -orig(h));
    assert_eq!(k.finalize(&9), -9);
}

#[test]
fn map_changes_result_type() {
    let f = simple_fold(|n: &N| n.val, |a: &i32, c: &i32| a + c);
    let g = f.map(|r: &i32| r.to_string(), |s: &String| s.parse::<i32>().unwrap());
    let r = fused::Spec.run(&g, &n_graph(), &sample_tree());
    assert_eq!(r, "15");
    let g2 = f.map_r_bi(|r: &i32| *r as i64 * 2, |r: &i64| (*r / 2) as i32);
    assert_eq!(fused::Spec.run(&g2, &n_graph(), &sample_tree()), 30);
}

#[test]
fn zipmap_pairs_result() {
    let f = simple_fold(|n: &N| n.val, |a: &i32, c: &i32| a + c);
    let z = f.zipmap(|r: &i32| *r % 2 == 0);
    assert_eq!(fused::Spec.run(&z, &n_graph(), &sample_tree()), (15, false));
}

#[test]
fn contramap_changes_node_type() {
    let f = Fold::new(|n: &i32| *n, |h: &i32, r: &i32| h + r, |h: &i32| *h);
    let g = f.contramap(|s: &&str| s.len() as i32);
    assert_eq!(g.init(&"four"), 4);
    let g2 = f.contramap_n(|b: &bool| if *b { 1 } else { 0 });
    assert_eq!(g2.init(&true), 1);
}

#[test]
fn product_runs_two_folds() {
    let sum = simple_fold(|n: &N| n.val, |a: &i32, c: &i32| a + c);
    let count = simple_fold(|_: &N| 1usize, |a: &usize, c: &usize| a + c);
    let p = sum.product(&count);
    assert_eq!(fused::Spec.run(&p, &n_graph(), &sample_tree()), (15, 5));
}

#[test]
fn closure_level_combinators() {
    let (i, a, f) = map_fold(|n: &i32| *n, |h: &i32, r: &i32| h + r, |h: &i32| *h, |r: &i32| *r as u8, |r: &u8| *r as i32);
    assert_eq!(i(&3), 3);
    assert_eq!(a(&3, &4u8), 7);
    assert_eq!(f(&200), 200u8);
    let (ci, ca, cf) = contramap_fold(|n: &i32| *n, |h: &i32, r: &i32| h * r, |h: &i32| *h, |s: &String| s.len() as i32);
    assert_eq!(ci(&String::from("abc")), 3);
    assert_eq!(ca(&3, &4), 12);
    assert_eq!(cf(&5), 5);
    let wi = wrap_init(|n: &i32| *n + 1, |n: &i32, orig: &_| orig(n) * 10);
    assert_eq!(wi(&1), 20);
    let wa = wrap_accumulate(|h: &i32, r: &i32| h + r, |h: &i32, r: &i32, orig: &_| orig(h, r) - 1);
    assert_eq!(wa(&1, &1), 1);
    let wf = wrap_finalize(|h: &i32| *h, |h: &i32, orig: &_| orig(h) + 5);
    assert_eq!(wf(&1), 6);
}

#[test]
fn phase_mappers_replace_one_phase() {
    let f = Fold::new(|n: &i32| *n, |h: &i32, r: &i32| h + r, |h: &i32| *h);
    let g = map_init(&f, |old| move |n: &i32| old(n) + 1);
    assert_eq!(g.init(&1), 2);
    let g = map_accumulate(&f, |old| move |h: &i32, r: &i32| old(h, r) * 2);
    let mut h = 1;
    g.accumulate(&mut h, &2);
    assert_eq!(h, 6);
    let g = map_finalize(&f, |old| move |h: &i32| old(h) - 1);
    assert_eq!(g.finalize(&1), 0);
}

#[test]
fn map_phases_rewrites_all_three() {
    let f = Fold::new(|n: &i32| *n, |h: &i32, r: &i32| h + r, |h: &i32| *h);
    let g = f.map_phases(
        |old| move |n: &i32| old(n) * 3,
        |old| move |h: &i32, r: &i32| old(h, r) + 100,
        |old| move |h: &i32| old(h) - 1,
    );
    assert_eq!(g.init(&2), 6);
    let mut h = 1;
    g.accumulate(&mut h, &2);
    assert_eq!(h, 103);
    assert_eq!(g.finalize(&10), 9);
    let r = fused::Spec.run(&g, &treeish(|n: &i32| if *n > 1 { vec![*n - 1] } else { vec![] }), &2);
    // node 1: heap 3, result 2; node 2: heap 6, + (2 + 100) = 108, result 107.
    assert_eq!(r, 107);
}

#[test]
fn explainer_keeps_results_and_records_steps() {
    let f = Fold::new(|n: &N| n.val, |h: &i32, r: &i32| h + r, |h: &i32| *h);
    let plain = fused::Spec.run(&f, &n_graph(), &sample_tree());
    let ex = fused::Spec.run(&f.explainer(), &n_graph(), &sample_tree());
    assert_eq!(ex.orig_result, plain);
    assert_eq!(ex.orig_result, 15);
    assert_eq!(ex.node.val, 1);
    assert_eq!(ex.working_heap, 15);
    // root has two children: 2 (subtree sum 11) then 3
    assert_eq!(ex.transitions.len(), 2);
    assert_eq!(ex.transitions[0].incoming_result.orig_result, 11);
    assert_eq!(ex.transitions[0].resulting_heap, 12);
    assert_eq!(ex.transitions[1].incoming_result.orig_result, 3);
    assert_eq!(ex.transitions[1].resulting_heap, 15);
    let child = &ex.transitions[0].incoming_result;
    assert_eq!(child.node.val, 2);
    assert_eq!(child.transitions.len(), 2);
    assert_eq!(child.transitions[1].resulting_heap, 11);
    let copy = ex.deep_clone();
    assert_eq!(copy.transitions[0].incoming_result.transitions[0].incoming_result.orig_result, 4);
    let heap = copy.into_heap();
    assert_eq!(heap.node.val, 1);
    assert_eq!(heap.transitions.len(), 2);
}

#[test]
fn explainer_describe_emits_each_node_and_keeps_result() {
    let f = Fold::new(|n: &N| n.val, |h: &i32, r: &i32| h + r, |h: &i32| *h);
    let fmt = Fold::new(
        |h: &ExplainerHeap<N, i32, i32>| format!("{}:{}:{}", h.node.val, h.working_heap, h.transitions.len()),
        |s: &String, _c: &String| s.clone(),
        |s: &String| s.clone(),
    );
    let log: Rc<RefCell<Vec<String>>> = Rc::new(RefCell::new(Vec::new()));
    let sink = log.clone();
    let d = f.explainer_describe(&fmt, move |s: &String| sink.borrow_mut().push(s.clone()));
    let r = fused::Spec.run(&d, &n_graph(), &sample_tree());
    assert_eq!(r, 15);
    assert_eq!(*log.borrow(), vec!["4:4:0", "5:5:0", "2:11:2", "3:3:0", "1:15:2"]);
}

#[test]
fn fused_run_ignores_cycles_the_root_does_not_reach() {
    // 0 -> [1, 2]; 1 and 2 are leaves; 5 <-> 6 form a cycle unreachable from 0.
    let g = treeish(|n: &u32| match *n {
        0 => vec![1, 2],
        5 => vec![6],
        6 => vec![5],
        _ => vec![],
    });
    let f = simple_fold(|n: &u32| *n, |a: &u32, c: &u32| a + c);
    assert_eq!(fused::Spec.run(&f, &g, &0), 3);
}
