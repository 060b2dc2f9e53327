use vstd::prelude::*;

use crate::change::{prepare_all, propagate, propagate_each, propagate_from};
use crate::context::AggregationContext;
use crate::counter::{lemma_deltas_commute, SignedCounter};
use crate::hierarchy::well_formed;
use crate::node::{AggregatingNode, AggregationNode};

verus! {

/// The nodes after each of `changes` was applied to `origin` and propagated,
/// one after the other, from the first to the last.
pub open spec fn apply_serially<C: AggregationContext>(
    ctx: C,
    nodes: Seq<AggregationNode<C::Data>>,
    origin: int,
    changes: Seq<C::DataChange>,
) -> Seq<AggregationNode<C::Data>>
    decreases changes.len(),
{
    if changes.len() == 0 {
        nodes
    } else {
        propagate_from(
            ctx,
            apply_serially(ctx, nodes, origin, changes.drop_last()),
            origin,
            changes.last(),
        )
    }
}

/// A change from a leaf whose uppers are `a` and `b` reaches each of them
/// once, unchanged, and touches no other node, where neither hands anything
/// further on.
pub proof fn lemma_leaf_reaches_each_upper_once<C: AggregationContext>(
    ctx: C,
    nodes: Seq<AggregationNode<C::Data>>,
    leaf: int,
    a: usize,
    b: usize,
    change: C::DataChange,
)
    requires
        well_formed(nodes),
        0 <= leaf < nodes.len(),
        nodes[leaf] is Leaf,
        nodes[leaf].uppers_spec() == seq![a, b],
        a != b,
        nodes[a as int].forward(ctx, change) is None,
        nodes[b as int].forward(ctx, change) is None,
    ensures
        propagate_from(ctx, nodes, leaf, change) == nodes.update(
            a as int,
            nodes[a as int].after_change(ctx, change),
        ).update(b as int, nodes[b as int].after_change(ctx, change)),
{
    let f = nodes[leaf].forward(ctx, change)->0;
    assert(nodes.update(leaf, nodes[leaf].after_change(ctx, change)) =~= nodes);
    assert(f.uppers.drop_last() =~= seq![a]);
    assert(seq![a].drop_last() =~= Seq::<usize>::empty());
    let (n0, h0) = prepare_all(ctx, nodes, Seq::<usize>::empty(), change);
    assert(n0 == nodes && h0.len() == 0);
    let (n1, h1) = prepare_all(ctx, nodes, seq![a], change);
    assert(n1 == nodes.update(a as int, nodes[a as int].after_change(ctx, change)));
    assert(h1.len() == 0);
    assert(n1[b as int] == nodes[b as int]);
    let (after, handed_on) = prepare_all(ctx, nodes, f.uppers, f.change);
    assert(after == n1.update(b as int, nodes[b as int].after_change(ctx, change)));
    assert(handed_on.len() == 0);
    assert(propagate(ctx, nodes, f, nodes.len()) == propagate_each(
        ctx,
        after,
        handed_on,
        (nodes.len() - 1) as nat,
    ));
}

/// A change to a leaf without uppers leaves every node as it was.
pub proof fn lemma_isolated_leaf_drops_change<C: AggregationContext>(
    ctx: C,
    nodes: Seq<AggregationNode<C::Data>>,
    leaf: int,
    change: C::DataChange,
)
    requires
        0 <= leaf < nodes.len(),
        nodes[leaf] is Leaf,
        nodes[leaf].uppers_spec().len() == 0,
    ensures
        propagate_from(ctx, nodes, leaf, change) == nodes,
{
    assert(nodes.update(leaf, nodes[leaf].after_change(ctx, change)) =~= nodes);
}

/// A change to an aggregating node without uppers is merged into its data
/// and goes no further, whatever the merge forwards.
pub proof fn lemma_root_absorbs_change<C: AggregationContext>(
    ctx: C,
    nodes: Seq<AggregationNode<C::Data>>,
    root: int,
    change: C::DataChange,
)
    requires
        0 <= root < nodes.len(),
        nodes[root] matches AggregationNode::Aggregating(r) && r.uppers@.len() == 0,
    ensures
        propagate_from(ctx, nodes, root, change) == nodes.update(
            root,
            AggregationNode::Aggregating(
                AggregatingNode {
                    data: ctx.merged(nodes[root]->Aggregating_0.data, change),
                    uppers: nodes[root]->Aggregating_0.uppers,
                },
            ),
        ),
{
}

/// A change from a leaf whose one upper is an aggregating root is merged
/// into that root and nothing else changes.
proof fn lemma_leaf_under_root<C: AggregationContext>(
    ctx: C,
    nodes: Seq<AggregationNode<C::Data>>,
    leaf: int,
    root: usize,
    change: C::DataChange,
)
    requires
        0 <= leaf < nodes.len(),
        root < nodes.len(),
        leaf != root,
        nodes[leaf] is Leaf,
        nodes[leaf].uppers_spec() == seq![root],
        nodes[root as int] matches AggregationNode::Aggregating(r) && r.uppers@.len() == 0,
    ensures
        propagate_from(ctx, nodes, leaf, change) == nodes.update(
            root as int,
            nodes[root as int].after_change(ctx, change),
        ),
{
    let f = nodes[leaf].forward(ctx, change)->0;
    assert(nodes.update(leaf, nodes[leaf].after_change(ctx, change)) =~= nodes);
    assert(f.uppers.drop_last() =~= Seq::<usize>::empty());
    let (n0, h0) = prepare_all(ctx, nodes, Seq::<usize>::empty(), change);
    assert(n0 == nodes && h0.len() == 0);
    let (after, handed_on) = prepare_all(ctx, nodes, f.uppers, f.change);
    assert(handed_on.len() == 0);
    assert(propagate(ctx, nodes, f, nodes.len()) == propagate_each(
        ctx,
        after,
        handed_on,
        (nodes.len() - 1) as nat,
    ));
}

/// Two counter deltas that come up from two leaves below one aggregating
/// root leave the hierarchy the same, whichever is applied first.
pub proof fn lemma_converging_deltas_commute(
    nodes: Seq<AggregationNode<i64>>,
    leaf1: int,
    leaf2: int,
    root: usize,
    c1: i64,
    c2: i64,
)
    requires
        well_formed(nodes),
        0 <= leaf1 < nodes.len(),
        0 <= leaf2 < nodes.len(),
        nodes[leaf1] is Leaf,
        nodes[leaf2] is Leaf,
        nodes[leaf1].uppers_spec() == seq![root],
        nodes[leaf2].uppers_spec() == seq![root],
        nodes[root as int] matches AggregationNode::Aggregating(r) && r.uppers@.len() == 0,
    ensures
        propagate_from(SignedCounter, propagate_from(SignedCounter, nodes, leaf1, c1), leaf2, c2)
            == propagate_from(
            SignedCounter,
            propagate_from(SignedCounter, nodes, leaf2, c2),
            leaf1,
            c1,
        ),
{
    let ctx = SignedCounter;
    let r = root as int;
    assert(leaf1 < r && leaf2 < r && r < nodes.len()) by {
        assert(nodes[leaf1].uppers_spec()[0] == root);
        assert(nodes[leaf2].uppers_spec()[0] == root);
    }
    lemma_leaf_under_root(ctx, nodes, leaf1, root, c1);
    lemma_leaf_under_root(ctx, nodes, leaf2, root, c2);
    let n1 = nodes.update(r, nodes[r].after_change(ctx, c1));
    let n2 = nodes.update(r, nodes[r].after_change(ctx, c2));
    lemma_leaf_under_root(ctx, n1, leaf2, root, c2);
    lemma_leaf_under_root(ctx, n2, leaf1, root, c1);
    let d = nodes[r]->Aggregating_0.data;
    lemma_deltas_commute(d, c1, c2);
    assert(n1.update(r, n1[r].after_change(ctx, c2)) =~= n2.update(
        r,
        n2[r].after_change(ctx, c1),
    ));
}

/// The counter `d` after each of `changes` was added, from the first to the
/// last.
pub open spec fn added(d: i64, changes: Seq<i64>) -> i64
    decreases changes.len(),
{
    if changes.len() == 0 {
        d
    } else {
        added(d, changes.drop_last()).wrapping_add(changes.last())
    }
}

proof fn lemma_added_move_to_end(d: i64, p: Seq<i64>, x: i64, q: Seq<i64>)
    ensures
        added(d, p + seq![x] + q) == added(d, p + q + seq![x]),
    decreases q.len(),
{
    if q.len() > 0 {
        let q0 = q.drop_last();
        let y = q.last();
        lemma_added_move_to_end(d, p, x, q0);
        assert((p + seq![x] + q).drop_last() =~= p + seq![x] + q0);
        assert((p + q + seq![x]).drop_last() =~= p + q);
        assert((p + q).drop_last() =~= p + q0);
        assert((p + q0 + seq![x]).drop_last() =~= p + q0);
        lemma_deltas_commute(added(d, p + q0), x, y);
        assert((p + seq![x] + q).last() == y);
        assert((p + q).last() == y);
        assert((p + q0 + seq![x]).last() == x);
        assert((p + q + seq![x]).last() == x);
        assert(added(d, p + seq![x] + q) == added(d, p + seq![x] + q0).wrapping_add(y));
        assert(added(d, p + q0 + seq![x]) == added(d, p + q0).wrapping_add(x));
        assert(added(d, p + q) == added(d, p + q0).wrapping_add(y));
        assert(added(d, p + q + seq![x]) == added(d, p + q).wrapping_add(x));
    } else {
        assert(p + seq![x] + q =~= p + q + seq![x]);
    }
}

proof fn lemma_added_permutation(d: i64, s1: Seq<i64>, s2: Seq<i64>)
    requires
        s1.to_multiset() =~= s2.to_multiset(),
    ensures
        added(d, s1) == added(d, s2),
    decreases s1.len(),
{
    broadcast use vstd::seq_lib::group_to_multiset_ensures;

    if s1.len() == 0 {
        assert(s2.to_multiset().len() == s1.to_multiset().len());
        assert(s2.len() == 0);
    } else {
        let x = s1.last();
        assert(s2.to_multiset().count(x) > 0);
        assert(s2.contains(x));
        let k = choose|k: int| 0 <= k < s2.len() && s2[k] == x;
        let p = s2.subrange(0, k);
        let q = s2.subrange(k + 1, s2.len() as int);
        assert(s2 =~= p + seq![x] + q);
        assert(s2.remove(k) =~= p + q);
        lemma_added_move_to_end(d, p, x, q);
        assert((p + q + seq![x]).drop_last() =~= p + q);
        assert(s1.remove(s1.len() - 1) =~= s1.drop_last());
        assert(s1.drop_last().to_multiset() =~= s2.remove(k).to_multiset());
        lemma_added_permutation(d, s1.drop_last(), p + q);
    }
}

proof fn lemma_serial_at_root(nodes: Seq<AggregationNode<i64>>, root: int, changes: Seq<i64>)
    requires
        0 <= root < nodes.len(),
        nodes[root] matches AggregationNode::Aggregating(r) && r.uppers@.len() == 0,
    ensures
        apply_serially(SignedCounter, nodes, root, changes) == nodes.update(
            root,
            AggregationNode::Aggregating(
                AggregatingNode {
                    data: added(nodes[root]->Aggregating_0.data, changes),
                    uppers: nodes[root]->Aggregating_0.uppers,
                },
            ),
        ),
    decreases changes.len(),
{
    if changes.len() == 0 {
        assert(nodes.update(root, nodes[root]) =~= nodes);
    } else {
        lemma_serial_at_root(nodes, root, changes.drop_last());
        let before = apply_serially(SignedCounter, nodes, root, changes.drop_last());
        lemma_root_absorbs_change(SignedCounter, before, root, changes.last());
        assert(before.update(
            root,
            AggregationNode::Aggregating(
                AggregatingNode {
                    data: added(nodes[root]->Aggregating_0.data, changes),
                    uppers: nodes[root]->Aggregating_0.uppers,
                },
            ),
        ) =~= nodes.update(
            root,
            AggregationNode::Aggregating(
                AggregatingNode {
                    data: added(nodes[root]->Aggregating_0.data, changes),
                    uppers: nodes[root]->Aggregating_0.uppers,
                },
            ),
        ));
    }
}

/// Counter deltas applied one after another to an aggregating root leave
/// the same hierarchy in whatever order they come.
pub proof fn lemma_root_order_independent(
    nodes: Seq<AggregationNode<i64>>,
    root: int,
    s1: Seq<i64>,
    s2: Seq<i64>,
)
    requires
        0 <= root < nodes.len(),
        nodes[root] matches AggregationNode::Aggregating(r) && r.uppers@.len() == 0,
        s1.to_multiset() =~= s2.to_multiset(),
    ensures
        apply_serially(SignedCounter, nodes, root, s1) == apply_serially(
            SignedCounter,
            nodes,
            root,
            s2,
        ),
{
    lemma_serial_at_root(nodes, root, s1);
    lemma_serial_at_root(nodes, root, s2);
    lemma_added_permutation(nodes[root]->Aggregating_0.data, s1, s2);
}

} // verus!
