use aggregation::change::{apply_change, apply_change_ref, PreparedOperation};
use aggregation::context::AggregationContext;
use aggregation::counter::{ActivationCounter, SignedCounter};
use aggregation::hierarchy::Hierarchy;
use aggregation::node::{AggregatingNode, AggregationNode};

fn leaf(uppers: Vec<usize>) -> AggregationNode<i64> {
    AggregationNode::Leaf { uppers }
}

fn agg(data: i64, uppers: Vec<usize>) -> AggregationNode<i64> {
    AggregationNode::Aggregating(AggregatingNode { data, uppers })
}

fn data_at(h: &Hierarchy<i64>, i: usize) -> Option<i64> {
    h.get(i).data().copied()
}


fn chain() -> Hierarchy<i64> {
    // leaf -> A -> R
    Hierarchy::new(vec![leaf(vec![1]), agg(0, vec![2]), agg(0, vec![])]).unwrap()
}

#[test]
fn activation_chain_first_change_reaches_root() {
    let mut h = chain();
    apply_change(&ActivationCounter, &mut h, 0, 1);
    assert_eq!(data_at(&h, 1), Some(1));
    assert_eq!(data_at(&h, 2), Some(1));
}

#[test]
fn activation_chain_second_change_stops_at_middle() {
    let mut h = chain();
    apply_change(&ActivationCounter, &mut h, 0, 1);
    apply_change(&ActivationCounter, &mut h, 0, 1);
    assert_eq!(data_at(&h, 1), Some(2));
    assert_eq!(data_at(&h, 2), Some(1));
}

#[test]
fn leaf_with_two_uppers_reaches_both_once() {
    // leaf 0 with uppers A = 1 and B = 2, both roots; node 3 is unrelated
    let mut h = Hierarchy::new(vec![leaf(vec![1, 2]), agg(10, vec![]), agg(20, vec![]), agg(30, vec![])])
        .unwrap();
    apply_change(&SignedCounter, &mut h, 0, 5);
    assert_eq!(data_at(&h, 0), None);
    assert_eq!(data_at(&h, 1), Some(15));
    assert_eq!(data_at(&h, 2), Some(25));
    assert_eq!(data_at(&h, 3), Some(30));
}

#[test]
fn isolated_leaf_drops_change() {
    let mut h = Hierarchy::new(vec![leaf(vec![]), agg(7, vec![])]).unwrap();
    apply_change(&SignedCounter, &mut h, 0, 3);
    assert_eq!(data_at(&h, 0), None);
    assert_eq!(data_at(&h, 1), Some(7));
    let mut n = leaf(vec![]);
    assert!(n.apply_change(&SignedCounter, 3).is_none());
    assert!(n.apply_change_ref(&SignedCounter, &3).is_none());
}

#[test]
fn root_merges_and_stops() {
    // the counter always forwards, yet a root hands nothing on
    let mut h = Hierarchy::new(vec![agg(4, vec![]), agg(0, vec![])]).unwrap();
    apply_change(&SignedCounter, &mut h, 0, 6);
    assert_eq!(data_at(&h, 0), Some(10));
    assert_eq!(data_at(&h, 1), Some(0));
    let mut n = agg(4, vec![]);
    assert!(n.apply_change(&SignedCounter, 6).is_none());
    assert_eq!(n.data().copied(), Some(10));
}

#[test]
fn converging_changes_in_either_order() {
    // leaves 0 and 1 under root 2
    let make = || Hierarchy::new(vec![leaf(vec![2]), leaf(vec![2]), agg(0, vec![])]).unwrap();
    let mut h1 = make();
    apply_change(&SignedCounter, &mut h1, 0, 3);
    apply_change(&SignedCounter, &mut h1, 1, -8);
    let mut h2 = make();
    apply_change(&SignedCounter, &mut h2, 1, -8);
    apply_change(&SignedCounter, &mut h2, 0, 3);
    assert_eq!(data_at(&h1, 2), Some(-5));
    assert_eq!(data_at(&h2, 2), Some(-5));
}

#[test]
fn root_order_does_not_matter() {
    let changes = [4i64, -9, 13, i64::MAX, 2];
    let mut h1 = Hierarchy::new(vec![agg(1, vec![])]).unwrap();
    for c in changes.iter() {
        apply_change_ref(&SignedCounter, &mut h1, 0, c);
    }
    let mut h2 = Hierarchy::new(vec![agg(1, vec![])]).unwrap();
    for c in changes.iter().rev() {
        apply_change(&SignedCounter, &mut h2, 0, *c);
    }
    let expected = changes.iter().fold(1i64, |d, c| d.wrapping_add(*c));
    assert_eq!(data_at(&h1, 0), Some(expected));
    assert_eq!(data_at(&h2, 0), Some(expected));
}

#[test]
fn counter_wraps_at_bounds() {
    let mut h = Hierarchy::new(vec![agg(i64::MAX, vec![])]).unwrap();
    apply_change(&SignedCounter, &mut h, 0, 1);
    assert_eq!(data_at(&h, 0), Some(i64::MIN));
}

#[test]
fn deep_propagation_through_leaves_and_nodes() {
    // 0: leaf -> 1, 2; 1: agg -> 3; 2: leaf -> 3; 3: agg -> 4; 4: agg root
    let mut h = Hierarchy::new(vec![
        leaf(vec![1, 2]),
        agg(0, vec![3]),
        leaf(vec![3]),
        agg(0, vec![4]),
        agg(0, vec![]),
    ])
    .unwrap();
    apply_change(&SignedCounter, &mut h, 0, 2);
    assert_eq!(data_at(&h, 1), Some(2));
    assert_eq!(data_at(&h, 3), Some(4));
    assert_eq!(data_at(&h, 4), Some(4));
}

#[test]
fn activation_absorbs_change_that_keeps_zero() {
    let mut h = chain();
    apply_change(&ActivationCounter, &mut h, 0, 0);
    assert_eq!(data_at(&h, 1), Some(0));
    assert_eq!(data_at(&h, 2), Some(0));
    apply_change(&ActivationCounter, &mut h, 0, -3);
    assert_eq!(data_at(&h, 1), Some(-3));
    assert_eq!(data_at(&h, 2), Some(-3));
}

#[test]
fn prepared_change_applies_to_uppers() {
    let mut h = Hierarchy::new(vec![leaf(vec![1]), agg(0, vec![2]), agg(0, vec![])]).unwrap();
    let mut origin = leaf(vec![1, 2]);
    let prepared = origin.apply_change(&SignedCounter, 5).unwrap();
    prepared.apply(&SignedCounter, &mut h);
    // node 1 merges and forwards to 2; node 2 also gets the change directly
    assert_eq!(data_at(&h, 1), Some(5));
    assert_eq!(data_at(&h, 2), Some(10));
    let mut middle = agg(0, vec![2]);
    let prepared = middle.apply_change_ref(&SignedCounter, &1).unwrap();
    prepared.apply(&SignedCounter, &mut h);
    assert_eq!(middle.data().copied(), Some(1));
    assert_eq!(data_at(&h, 2), Some(11));
}

#[test]
fn hierarchy_rejects_links_that_do_not_lead_upward() {
    assert!(Hierarchy::new(vec![leaf(vec![0])]).is_none());
    assert!(Hierarchy::new(vec![agg(0, vec![1]), leaf(vec![0])]).is_none());
    assert!(Hierarchy::new(vec![leaf(vec![2]), agg(0, vec![])]).is_none());
    assert!(Hierarchy::<i64>::new(vec![]).is_some());
    assert_eq!(Hierarchy::new(vec![leaf(vec![1]), agg(0, vec![])]).unwrap().len(), 2);
}

#[test]
fn context_merge_directly() {
    let mut d = 0i64;
    assert_eq!(ActivationCounter.apply_change(&mut d, &2), Some(2));
    assert_eq!(d, 2);
    assert_eq!(ActivationCounter.apply_change(&mut d, &2), None);
    assert_eq!(d, 4);
    assert_eq!(SignedCounter.apply_change(&mut d, &-4), Some(-4));
    assert_eq!(d, 0);
}

#[test]
fn nothing_prepared_changes_nothing() {
    let mut h = Hierarchy::new(vec![leaf(vec![1]), agg(3, vec![])]).unwrap();
    let mut root = agg(0, vec![]);
    let prepared = root.apply_change(&SignedCounter, 9);
    assert!(prepared.is_none());
    prepared.apply(&SignedCounter, &mut h);
    assert_eq!(data_at(&h, 1), Some(3));
}
