use lib::exec::funnel::cps::chain::FoldChain;
use lib::exec::funnel::cps::cont::{ChainNode, Cont};
use lib::exec::funnel::policy::accumulate::{AccumulateStrategy, OnArrival, OnFinalize};
use lib::fold::Fold;

fn digits() -> Fold<impl Fn(&u32) -> String, impl Fn(&String, &String) -> String, impl Fn(&String) -> String> {
    // accumulation order is visible in the result
    Fold::new(|n: &u32| n.to_string(), |h: &String, r: &String| format!("{}{}", h, r), |h: &String| format!("<{}>", h))
}

fn run_in_order<S: AccumulateStrategy>(order: &[usize], set_total_after: usize) -> Vec<Option<String>> {
    let fold = digits();
    let mut chain: FoldChain<String, String> = FoldChain::new(String::from("0"), &fold);
    let slots: Vec<_> = (0..order.len()).map(|_| chain.push_slot(&fold)).collect();
    let mut events = Vec::new();
    for (k, &i) in order.iter().enumerate() {
        if k == set_total_after {
            events.push(S::set_total(&mut chain, &fold));
        }
        events.push(S::deliver(&mut chain, slots[i], format!("{}", i + 1), &fold));
    }
    if set_total_after >= order.len() {
        events.push(S::set_total(&mut chain, &fold));
    }
    events
}

#[test]
fn on_finalize_accumulates_in_slot_order() {
    let events = run_in_order::<OnFinalize>(&[2, 0, 1], 0);
    assert_eq!(events, vec![None, None, None, Some(String::from("<0123>"))]);
}

#[test]
fn on_arrival_accumulates_in_slot_order() {
    let events = run_in_order::<OnArrival>(&[1, 2, 0], 3);
    assert_eq!(events, vec![None, None, None, Some(String::from("<0123>"))]);
}

#[test]
fn strategies_agree_whatever_the_order() {
    for order in [[0usize, 1, 2], [2, 1, 0], [1, 0, 2], [0, 2, 1]] {
        for t in 0..4 {
            let a = run_in_order::<OnArrival>(&order, t);
            let f = run_in_order::<OnFinalize>(&order, t);
            assert_eq!(a, f);
            assert_eq!(a.iter().filter(|e| e.is_some()).count(), 1);
            assert!(a.contains(&Some(String::from("<0123>"))));
        }
    }
}

#[test]
fn leaf_chain_finishes_at_set_total() {
    let fold = digits();
    let mut chain: FoldChain<String, String> = FoldChain::new(String::from("7"), &fold);
    assert_eq!(chain.set_total_and_sweep(&fold), Some(String::from("<7>")));
}

#[test]
fn chain_node_hands_out_parent_once() {
    let fold = digits();
    let mut node: ChainNode<String, String> = ChainNode::new(String::from("h"), Cont::Root, &fold);
    assert!(matches!(node.take_parent_cont(), Cont::Root));
    assert_eq!(node.chain.set_total_and_finalize(&fold), Some(String::from("<h>")));
}
