use std::cell::Cell;

use lib::exec::fused;
use lib::fold::Fold;
use lib::graph::combinators::{contramap_node, contramap_or_node, filter_edges, map_edges};
use lib::graph::treeish_from_err_edgy::{default_contramap, default_contramap_err_case, map_contramap_or, map_edgy_valid, new_default, TreeishFromErrEdgy};
use lib::graph::Either;
use lib::graph::edgy::{edgy, treeish, Edgy};
use lib::graph::raco_adapter::RacoAdapter;
use lib::graph::{Graph, SeedGraph};
use lib::hylo::{FoldAdapter, GraphWithFold};
use lib::domain::local;

fn adjacency() -> Vec<Vec<usize>> {
    // 0 -> [1, 2], 1 -> [3], 2 -> [], 3 -> []
    vec![vec![1, 2], vec![3], vec![], vec![]]
}

fn adj_graph() -> Edgy<impl Fn(&usize) -> Vec<usize>> {
    let adj = adjacency();
    treeish(move |n: &usize| adj[*n].clone())
}

#[test]
fn apply_and_children() {
    let g = adj_graph();
    assert_eq!(g.apply(&0), vec![1, 2]);
    assert_eq!(g.children(&1), vec![3]);
    assert_eq!(g.at(&2), Vec::<usize>::new());
}

#[test]
fn visit_hands_each_edge() {
    let g = adj_graph();
    let seen = Cell::new(0usize);
    g.visit(&0, &mut |e: &usize| seen.set(seen.get() * 10 + *e));
    assert_eq!(seen.get(), 12);
    let mut got: Vec<usize> = Vec::new();
    g.visit(&0, &mut |e: &usize| got.push(*e));
    assert_eq!(got, vec![1, 2]);
}

#[test]
fn map_edges_in_order() {
    let g = adj_graph().map(|e: &usize| *e as i64 * -1);
    assert_eq!(g.apply(&0), vec![-1, -2]);
}

#[test]
fn edgy_contramap_changes_node_type() {
    let g = adj_graph().contramap(|s: &&str| s.len());
    assert_eq!(g.apply(&"x"), vec![3]);
}

#[test]
fn filter_keeps_matching_edges_in_order() {
    let g = edgy(|n: &u32| (0..*n).collect::<Vec<u32>>()).filter(|e: &u32| e % 2 == 1);
    assert_eq!(g.apply(&8), vec![1, 3, 5, 7]);
    let all = edgy(|n: &u32| (0..*n).collect::<Vec<u32>>()).filter(|_: &u32| true);
    assert_eq!(all.apply(&3), vec![0, 1, 2]);
}

#[test]
fn treemap_moves_tree_to_new_node_type() {
    let g = adj_graph().treemap(|n: &usize| (*n as u64) + 100, |m: &u64| (*m - 100) as usize);
    assert_eq!(g.apply(&100), vec![101, 102]);
    assert_eq!(g.apply(&101), vec![103]);
}

#[test]
fn map_endpoints_rewrites_edge_function() {
    let g = adj_graph().map_endpoints(|inner| move |n: &usize| {
        let mut v = inner(n);
        v.reverse();
        v
    });
    assert_eq!(g.apply(&0), vec![2, 1]);
}

#[test]
fn closure_level_graph_combinators() {
    let base = |n: &u32| vec![*n, *n + 1];
    let m = map_edges(base, |e: &u32| e * 2);
    assert_eq!(m(&3), vec![6, 8]);
    let c = contramap_node(base, |s: &String| s.len() as u32);
    assert_eq!(c(&String::from("ab")), vec![2, 3]);
    let f = filter_edges(base, |e: &u32| *e > 3);
    assert_eq!(f(&3), vec![4]);
}

#[test]
fn graph_parts_and_mappers() {
    let g = Graph::new(adj_graph(), edgy(|top: &Vec<usize>| top.clone()));
    assert_eq!(g.top_edgy.apply(&vec![2, 3]), vec![2, 3]);
    let g2 = g.map_treeish(|t| t.filter(|c: &usize| *c != 2));
    assert_eq!(g2.treeish.apply(&0), vec![1]);
    let g3 = g.map_top_edgy(|t| t.map(|c: &usize| c + 1));
    assert_eq!(g3.top_edgy.apply(&vec![0]), vec![1]);
}

#[test]
fn seed_graph_grows_nodes_from_seeds() {
    // node = (name, depth); seeds = names of dependencies
    let sg = SeedGraph::new(
        edgy(|n: &(String, u32)| if n.1 < 2 { vec![format!("{}a", n.0), format!("{}b", n.0)] } else { vec![] }),
        |s: &String| (s.clone(), s.len() as u32 - 1),
        edgy(|top: &u32| vec![String::from("r"); *top as usize]),
    );
    assert_eq!(sg.seeds_from_node(&(String::from("r"), 0)), vec![String::from("ra"), String::from("rb")]);
    assert_eq!(sg.grow(&String::from("rab")), (String::from("rab"), 2));
    assert_eq!(sg.seeds_from_top(&2).len(), 2);
    let t = sg.make_treeish();
    assert_eq!(t.apply(&(String::from("r"), 0)), vec![(String::from("ra"), 1), (String::from("rb"), 1)]);
    let top = sg.make_top_edgy();
    assert_eq!(top.apply(&1), vec![(String::from("r"), 0)]);
    let g = sg.make_graph();
    assert_eq!(g.treeish.apply(&(String::from("ra"), 1)).len(), 2);
    let sg2 = sg.map_grow(|old| move |s: &String| {
        let (n, d) = old(s);
        (n.to_uppercase(), d)
    });
    assert_eq!(sg2.grow(&String::from("ra")), (String::from("RA"), 1));
    let sg3 = sg.map_seeds_from_top(|e| e.map(|s: &String| format!("{}!", s)));
    assert_eq!(sg3.seeds_from_top(&1), vec![String::from("r!")]);
    let sg4 = sg.map_seeds_from_node(|e| e.filter(|s: &String| s.ends_with('a')));
    assert_eq!(sg4.seeds_from_node(&(String::from("r"), 0)), vec![String::from("ra")]);
}

fn count_fold() -> Fold<impl Fn(&usize) -> u64, impl Fn(&u64, &u64) -> u64, impl Fn(&u64) -> u64> {
    Fold::new(|_: &usize| 1u64, |h: &u64, c: &u64| h + c, |h: &u64| *h)
}

#[test]
fn graph_with_fold_runs_from_top() {
    let graph = Graph::new(adj_graph(), edgy(|top: &Vec<usize>| top.clone()));
    let gwf = GraphWithFold::new(&graph, &count_fold(), |_: &Vec<usize>| 0u64);
    let exec = local::exec(fused::Spec);
    assert_eq!(gwf.heap_of_top(&vec![]), 0);
    assert_eq!(gwf.run_node(&exec, &0), 4);
    assert_eq!(gwf.run(&exec, &vec![1, 2]), 3);
    assert_eq!(gwf.run(&exec, &vec![0, 0]), 8);
    let z = gwf.zipmap(|r: &u64| r * 2);
    assert_eq!(z.run_node(&exec, &1), (2, 4));
    let m = gwf.map(|r: &u64| *r as i32, |r: &i32| *r as u64);
    assert_eq!(m.run(&exec, &vec![3]), 1);
    let h = gwf.map_heap_of_top(|old| move |t: &Vec<usize>| old(t) + 100);
    assert_eq!(h.run(&exec, &vec![3]), 101);
    let g2 = gwf.map_graph(|g| g.map_treeish(|t| t.filter(|c: &usize| *c != 3)));
    assert_eq!(g2.run_node(&exec, &0), 3);
    let f2 = gwf.map_fold(|f| f.wrap_finalize(|h: &u64, orig: &_| orig(h) * 10));
    assert_eq!(f2.run_node(&exec, &2), 10);
}

#[test]
fn fold_adapter_runs_with_fused() {
    let graph = Graph::new(adj_graph(), edgy(|top: &usize| vec![*top]));
    let a = FoldAdapter::new_from_parts(&graph, &count_fold(), |_: &usize| 0u64);
    assert_eq!(a.run_node(&0), 4);
    assert_eq!(a.run_top(&1), 2);
    assert_eq!(a.heap_of_top(&7), 0);
    let b = FoldAdapter::new(&a.graph_with_raco);
    assert_eq!(b.run_top(&0), 4);
    let z = a.zipmap(|r: &u64| *r == 4);
    assert_eq!(z.run_node(&0), (4, true));
    let m = a.map(|r: &u64| r.to_string(), |s: &String| s.parse::<u64>().unwrap());
    assert_eq!(m.run_top(&0), "4");
    let h = a.map_heap_of_top(|old| move |t: &usize| old(t) + 1);
    assert_eq!(h.run_top(&2), 2);
    let g = a.map_graph(|g| g.map_top_edgy(|e| e.map(|n: &usize| n + 1)));
    assert_eq!(g.run_top(&0), 2);
    let f = a.map_fold(|f| f.wrap_init(|n: &usize, orig: &_| orig(n) + 1));
    assert_eq!(f.run_node(&1), 4);
}

#[test]
fn raco_adapter_runs_with_fused() {
    let graph = Graph::new(adj_graph(), edgy(|top: &usize| vec![*top]));
    let a = RacoAdapter::new_from_parts(&graph, &count_fold(), |_: &usize| 0u64);
    assert_eq!(a.execute_on_node(&0), 4);
    assert_eq!(a.execute_top(&1), 2);
    assert_eq!(a.heap_of_top(&7), 0);
    let b = RacoAdapter::new(&a.graph_with_raco);
    assert_eq!(b.execute_top(&3), 1);
    let z = a.zipmap(|r: &u64| r + 1);
    assert_eq!(z.execute_on_node(&1), (2, 3));
    let m = a.map(|r: &u64| *r as i8, |r: &i8| *r as u64);
    assert_eq!(m.execute_on_node(&0), 4i8);
    let h = a.map_heap_of_top(|old| move |t: &usize| old(t) + 5);
    assert_eq!(h.execute_top(&3), 6);
    let g = a.map_graph(|g| g.map_treeish(|t| t.filter(|_: &usize| false)));
    assert_eq!(g.execute_on_node(&0), 1);
    let r = a.map_rake_compress(|f| f.wrap_finalize(|h: &u64, orig: &_| orig(h) + 1000));
    assert_eq!(r.execute_on_node(&3), 1001);
}

#[test]
fn contramap_or_converts_or_gives_edges() {
    // a negative node gives its edges directly; others go to the old node.
    let g = adj_graph().contramap_or(|n: &i64| if *n < 0 { Either::Right(vec![7usize, 8]) } else { Either::Left(*n as usize) });
    assert_eq!(g.apply(&0), vec![1, 2]);
    assert_eq!(g.apply(&-1), vec![7, 8]);
    let h = adj_graph().contramap_or_emit(|n: &i64| if *n < 0 { Either::Right(vec![]) } else { Either::Left(*n as usize) });
    assert_eq!(h.apply(&1), vec![3]);
    assert_eq!(h.apply(&-5), Vec::<usize>::new());
    let adj = adjacency();
    let f = contramap_or_node(move |n: &usize| adj[*n].clone(), |s: &String| match s.parse::<usize>() {
        Ok(n) => Either::Left(n),
        Err(_) => Either::Right(vec![9usize]),
    });
    assert_eq!(f(&"1".to_string()), vec![3]);
    assert_eq!(f(&"x".to_string()), vec![9]);
}

type Node = Either<String, usize>;

fn valid_edges() -> Edgy<impl Fn(&usize) -> Vec<Node>> {
    // 0 -> [1, err "bad"], 1 -> [], others -> []
    edgy(|n: &usize| match *n {
        0 => vec![Either::Right(1usize), Either::Left("bad".to_string())],
        _ => vec![],
    })
}

#[test]
fn treeish_from_err_edgy_default_drops_errors() {
    let t = new_default(valid_edges());
    let tree = t.make_treeish();
    assert_eq!(tree.apply(&Either::Right(0)), vec![Either::Right(1), Either::Left("bad".to_string())]);
    assert_eq!(tree.apply(&Either::Left("bad".to_string())), Vec::<Node>::new());
    assert_eq!(t.edgy_valid(&1), Vec::<Node>::new());
    assert_eq!(t.contramap_or(&Either::Right(3)), Either::Right(3));
    assert_eq!(default_contramap_err_case::<usize, String>(&"e".to_string()), Either::Left(vec![]));
    let d = default_contramap::<usize, String>();
    assert_eq!(d(&Either::Right(4)), Either::Right(4));
    // the tree rooted at 0 has nodes 0, 1 and the error: count them
    let count = Fold::new(|_: &Node| 1u64, |h: &u64, c: &u64| h + c, |h: &u64| *h);
    assert_eq!(fused::Spec.run(&count, &tree, &Either::Right(0)), 3);
}

#[test]
fn treeish_from_err_edgy_recovers_errors() {
    // an error "retry" recovers to the valid node 0; other errors get one child
    let t = TreeishFromErrEdgy::new(valid_edges(), |n: &Node| match n {
        Either::Right(v) => Either::Right(*v),
        Either::Left(e) if e == "retry" => Either::Right(0usize),
        Either::Left(_) => Either::Left(vec![Either::Right(1usize)]),
    });
    let tree = t.make_treeish();
    assert_eq!(tree.apply(&Either::Left("retry".to_string())), vec![Either::Right(1), Either::Left("bad".to_string())]);
    assert_eq!(tree.apply(&Either::Left("bad".to_string())), vec![Either::Right(1)]);
    let t2 = t.map_edgy_valid(|e| e.filter(|c: &Node| matches!(c, Either::Right(_))));
    assert_eq!(t2.make_treeish().apply(&Either::Right(0)), vec![Either::Right(1)]);
    let t3 = t.map_contramap_or(|_old| |_: &Node| Either::Left(Vec::<Node>::new()));
    assert_eq!(t3.make_treeish().apply(&Either::Left("retry".to_string())), Vec::<Node>::new());
    let t4 = map_edgy_valid(&t, |e| e.map(|c: &Node| c.clone()));
    assert_eq!(t4.edgy_valid(&0).len(), 2);
    let t5 = map_contramap_or(&t, |old| move |n: &Node| old(n));
    assert_eq!(t5.contramap_or(&Either::Left("retry".to_string())), Either::Right(0));
}

#[test]
fn run_valid_folds_below_a_valid_node() {
    let t = new_default(valid_edges());
    let graph = Graph::new(t.make_treeish(), edgy(|top: &usize| vec![Either::<String, usize>::Right(*top)]));
    let count = Fold::new(|_: &Node| 1u64, |h: &u64, c: &u64| h + c, |h: &u64| *h);
    let gwf = GraphWithFold::new(&graph, &count, |_: &usize| 0u64);
    let exec = local::exec(fused::Spec);
    assert_eq!(gwf.run_valid(&exec, &0usize), 3);
    assert_eq!(gwf.run_valid(&exec, &1usize), 1);
}
