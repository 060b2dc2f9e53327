use vstd::prelude::*;

use crate::context::AggregationContext;
use crate::hierarchy::{well_formed, Hierarchy};
use crate::node::{copy_refs, AggregatingNode, AggregationNode, Forward};

verus! {

/// Runs the change-application step on each of `uppers` in turn, from the
/// first to the last: the nodes afterwards, and what each step handed on,
/// in the same order.
pub open spec fn prepare_all<C: AggregationContext>(
    ctx: C,
    nodes: Seq<AggregationNode<C::Data>>,
    uppers: Seq<usize>,
    change: C::DataChange,
) -> (Seq<AggregationNode<C::Data>>, Seq<Forward<C::DataChange>>)
    decreases uppers.len(),
{
    if uppers.len() == 0 {
        (nodes, Seq::empty())
    } else {
        let (before, handed_on) = prepare_all(ctx, nodes, uppers.drop_last(), change);
        let u = uppers.last() as int;
        let after = before.update(u, before[u].after_change(ctx, change));
        match before[u].forward(ctx, change) {
            Some(f) => (after, handed_on.push(f)),
            None => (after, handed_on),
        }
    }
}

/// The nodes after `f` was applied level by level: one step on each of its
/// uppers, then the same for everything those steps handed on. `levels`
/// bounds the depth; in a well-formed hierarchy the node count is enough.
pub open spec fn propagate<C: AggregationContext>(
    ctx: C,
    nodes: Seq<AggregationNode<C::Data>>,
    f: Forward<C::DataChange>,
    levels: nat,
) -> Seq<AggregationNode<C::Data>>
    decreases levels, 0nat, 0nat,
{
    if levels == 0 {
        nodes
    } else {
        let (after, handed_on) = prepare_all(ctx, nodes, f.uppers, f.change);
        propagate_each(ctx, after, handed_on, (levels - 1) as nat)
    }
}

/// Propagates each of `fs`, from the last to the first.
pub open spec fn propagate_each<C: AggregationContext>(
    ctx: C,
    nodes: Seq<AggregationNode<C::Data>>,
    fs: Seq<Forward<C::DataChange>>,
    levels: nat,
) -> Seq<AggregationNode<C::Data>>
    decreases levels, fs.len(), 1nat,
{
    if fs.len() == 0 {
        nodes
    } else {
        propagate_each(ctx, propagate(ctx, nodes, fs.last(), levels), fs.drop_last(), levels)
    }
}

/// The nodes after `change` was applied to node `origin` and propagated
/// from there.
pub open spec fn propagate_from<C: AggregationContext>(
    ctx: C,
    nodes: Seq<AggregationNode<C::Data>>,
    origin: int,
    change: C::DataChange,
) -> Seq<AggregationNode<C::Data>> {
    let after = nodes.update(origin, nodes[origin].after_change(ctx, change));
    match nodes[origin].forward(ctx, change) {
        Some(f) => propagate(ctx, after, f, nodes.len()),
        None => after,
    }
}

/// Every upper of `f` is a node of the hierarchy with index at least `low`.
pub open spec fn forward_within<X>(f: Forward<X>, low: int, len: int) -> bool {
    forall|k: int| 0 <= k < f.uppers.len() ==> low <= #[trigger] f.uppers[k] < len
}

/// Work prepared under one node's lock: apply `change` to each of `uppers`.
pub struct PreparedChange<C: AggregationContext> {
    uppers: Vec<usize>,
    change: C::DataChange,
}

impl<C: AggregationContext> View for PreparedChange<C> {
    type V = Forward<C::DataChange>;

    closed spec fn view(&self) -> Forward<C::DataChange> {
        Forward { uppers: self.uppers@, change: self.change }
    }
}

/// Work prepared under one node's lock, holding the change either borrowed
/// (a leaf hands on what it was given) or owned (what a merge produced).
pub enum PreparedChangeRef<'l, C: AggregationContext> {
    Borrowed { uppers: Vec<usize>, change: &'l C::DataChange },
    Owned { uppers: Vec<usize>, change: C::DataChange },
}

impl<'l, C: AggregationContext> View for PreparedChangeRef<'l, C> {
    type V = Forward<C::DataChange>;

    closed spec fn view(&self) -> Forward<C::DataChange> {
        match self {
            PreparedChangeRef::Borrowed { uppers, change } => Forward {
                uppers: uppers@,
                change: **change,
            },
            PreparedChangeRef::Owned { uppers, change } => Forward {
                uppers: uppers@,
                change: *change,
            },
        }
    }
}

pub open spec fn prepared_view<C: AggregationContext>(p: Option<PreparedChange<C>>) -> Option<
    Forward<C::DataChange>,
> {
    match p {
        Some(p) => Some(p@),
        None => None,
    }
}

pub open spec fn prepared_ref_view<'l, C: AggregationContext>(
    p: Option<PreparedChangeRef<'l, C>>,
) -> Option<Forward<C::DataChange>> {
    match p {
        Some(p) => Some(p@),
        None => None,
    }
}

impl<D> AggregationNode<D> {
    /// The change-application step, on an owned change: merges it where the
    /// node holds data, and prepares what goes on to the uppers.
    #[must_use]
    pub fn apply_change<C: AggregationContext<Data = D>>(
        &mut self,
        ctx: &C,
        change: C::DataChange,
    ) -> (r: Option<PreparedChange<C>>)
        ensures
            *final(self) == old(self).after_change(*ctx, change),
            prepared_view(r) == old(self).forward(*ctx, change),
    {
        match self {
            AggregationNode::Leaf { uppers } => {
                if uppers.len() == 0 {
                    None
                } else {
                    Some(PreparedChange { uppers: copy_refs(uppers), change })
                }
            },
            AggregationNode::Aggregating(a) => {
                let forwarded = ctx.apply_change(&mut a.data, &change);
                if a.uppers.len() == 0 {
                    None
                } else {
                    match forwarded {
                        Some(c) => Some(PreparedChange { uppers: copy_refs(&a.uppers), change: c }),
                        None => None,
                    }
                }
            },
        }
    }

    /// The change-application step, on a borrowed change, so that one change
    /// can be applied to several uppers without being copied.
    #[must_use]
    pub fn apply_change_ref<'l, C: AggregationContext<Data = D>>(
        &mut self,
        ctx: &C,
        change: &'l C::DataChange,
    ) -> (r: Option<PreparedChangeRef<'l, C>>)
        ensures
            *final(self) == old(self).after_change(*ctx, *change),
            prepared_ref_view(r) == old(self).forward(*ctx, *change),
    {
        match self {
            AggregationNode::Leaf { uppers } => {
                if uppers.len() == 0 {
                    None
                } else {
                    Some(PreparedChangeRef::Borrowed { uppers: copy_refs(uppers), change })
                }
            },
            AggregationNode::Aggregating(a) => {
                let forwarded = ctx.apply_change(&mut a.data, change);
                if a.uppers.len() == 0 {
                    None
                } else {
                    match forwarded {
                        Some(c) => Some(
                            PreparedChangeRef::Owned { uppers: copy_refs(&a.uppers), change: c },
                        ),
                        None => None,
                    }
                }
            },
        }
    }
}

/// After one step on a node of a well-formed hierarchy the hierarchy is
/// still well formed, and what the step hands on lies above the node.
proof fn lemma_step_keeps_shape<C: AggregationContext>(
    ctx: C,
    nodes: Seq<AggregationNode<C::Data>>,
    u: int,
    change: C::DataChange,
)
    requires
        well_formed(nodes),
        0 <= u < nodes.len(),
    ensures
        well_formed(nodes.update(u, nodes[u].after_change(ctx, change))),
        nodes[u].forward(ctx, change) matches Some(f) ==> forward_within(f, u + 1, nodes.len() as int)
            && f.uppers.len() > 0,
{
    let after = nodes.update(u, nodes[u].after_change(ctx, change));
    assert(after[u].uppers_spec() == nodes[u].uppers_spec());
    assert forall|i: int, k: int|
        0 <= i < after.len() && 0 <= k < after[i].uppers_spec().len() implies i
            < #[trigger] after[i].uppers_spec()[k] < after.len() by {
        assert(after[i].uppers_spec() == nodes[i].uppers_spec());
    }
}

/// Applies `change` to each of `uppers`, then propagates what those steps
/// handed on. No node is held while another is touched: each step ends
/// before the next begins.
fn forward_change<C: AggregationContext>(
    ctx: &C,
    hierarchy: &mut Hierarchy<C::Data>,
    uppers: &Vec<usize>,
    change: &C::DataChange,
    Ghost(levels): Ghost<nat>,
)
    requires
        old(hierarchy).wf(),
        levels <= old(hierarchy)@.len(),
        forall|k: int|
            0 <= k < uppers@.len() ==> old(hierarchy)@.len() - levels <= #[trigger] uppers@[k]
                < old(hierarchy)@.len(),
    ensures
        final(hierarchy).wf(),
        final(hierarchy)@.len() == old(hierarchy)@.len(),
        final(hierarchy)@ == propagate(
            *ctx,
            old(hierarchy)@,
            Forward { uppers: uppers@, change: *change },
            levels,
        ),
    decreases levels, 0nat,
{
    let ghost start = hierarchy@;
    let ghost n = start.len() as int;
    let mut prepared: Vec<PreparedChangeRef<'_, C>> = Vec::new();
    let mut i: usize = 0;
    while i < uppers.len()
        invariant
            hierarchy.wf(),
            hierarchy@.len() == n,
            i <= uppers@.len(),
            forall|k: int|
                0 <= k < uppers@.len() ==> n - levels <= #[trigger] uppers@[k] < n,
            (hierarchy@, prepared@.map_values(|p: PreparedChangeRef<'_, C>| p@)) == prepare_all(
                *ctx,
                start,
                uppers@.subrange(0, i as int),
                *change,
            ),
            forall|j: int|
                0 <= j < prepared@.len() ==> forward_within(
                    #[trigger] prepared@[j]@,
                    n - levels + 1,
                    n,
                ) && prepared@[j]@.uppers.len() > 0,
        decreases uppers@.len() - i,
    {
        let u = uppers[i];
        let ghost before = hierarchy@;
        let ghost handed_on = prepared@.map_values(|p: PreparedChangeRef<'_, C>| p@);
        proof {
            lemma_step_keeps_shape(*ctx, before, u as int, *change);
        }
        let node = hierarchy.node(u);
        let p = node.apply_change_ref(ctx, change);
        if let Some(p) = p {
            prepared.push(p);
        }
        proof {
            assert(uppers@.subrange(0, i + 1).drop_last() =~= uppers@.subrange(0, i as int));
            assert(prepared@.map_values(|p: PreparedChangeRef<'_, C>| p@) =~= match before[u as int].forward(*ctx, *change) {
                Some(f) => handed_on.push(f),
                None => handed_on,
            });
        }
        i = i + 1;
    }
    proof {
        assert(uppers@.subrange(0, uppers@.len() as int) =~= uppers@);
    }
    if prepared.len() == 0 {
        proof {
            if levels > 0 {
                assert(prepared@.map_values(|p: PreparedChangeRef<'_, C>| p@) =~= Seq::empty());
            }
        }
        return;
    }
    let ghost target = propagate(*ctx, start, Forward { uppers: uppers@, change: *change }, levels);
    assert(levels > 0) by {
        assert(forward_within(prepared@[0]@, n - levels + 1, n));
        assert(prepared@[0]@.uppers.len() > 0);
    }
    while prepared.len() > 0
        invariant
            hierarchy.wf(),
            hierarchy@.len() == n,
            levels > 0,
            levels <= n,
            forall|j: int|
                0 <= j < prepared@.len() ==> forward_within(
                    #[trigger] prepared@[j]@,
                    n - levels + 1,
                    n,
                ),
            propagate_each(
                *ctx,
                hierarchy@,
                prepared@.map_values(|p: PreparedChangeRef<'_, C>| p@),
                (levels - 1) as nat,
            ) == target,
        decreases prepared@.len(),
    {
        let ghost fs = prepared@.map_values(|p: PreparedChangeRef<'_, C>| p@);
        let p = prepared.pop().unwrap();
        proof {
            assert(prepared@.map_values(|p: PreparedChangeRef<'_, C>| p@) =~= fs.drop_last());
        }
        p.apply_within(ctx, hierarchy, Ghost((levels - 1) as nat));
    }
}

/// Work computed while one node was held, to be carried out once it is
/// released: `apply` consumes it and touches the uppers one at a time.
pub trait PreparedOperation<C: AggregationContext>: Sized {
    /// The work refers only to nodes of `nodes`.
    spec fn ready(&self, nodes: Seq<AggregationNode<C::Data>>) -> bool;

    /// The nodes after the work was carried out on `nodes`.
    spec fn effect(&self, ctx: C, nodes: Seq<AggregationNode<C::Data>>) -> Seq<
        AggregationNode<C::Data>,
    >;

    fn apply(self, ctx: &C, hierarchy: &mut Hierarchy<C::Data>)
        requires
            old(hierarchy).wf(),
            self.ready(old(hierarchy)@),
        ensures
            final(hierarchy).wf(),
            final(hierarchy)@ == self.effect(*ctx, old(hierarchy)@),
    ;
}

impl<C: AggregationContext> PreparedOperation<C> for PreparedChange<C> {
    open spec fn ready(&self, nodes: Seq<AggregationNode<C::Data>>) -> bool {
        forward_within(self@, 0, nodes.len() as int)
    }

    open spec fn effect(&self, ctx: C, nodes: Seq<AggregationNode<C::Data>>) -> Seq<
        AggregationNode<C::Data>,
    > {
        propagate(ctx, nodes, self@, nodes.len())
    }

    /// Applies the prepared change to each upper, and so on upward until no
    /// step hands anything on.
    fn apply(self, ctx: &C, hierarchy: &mut Hierarchy<C::Data>) {
        let ghost levels = hierarchy@.len();
        forward_change(ctx, hierarchy, &self.uppers, &self.change, Ghost(levels));
    }
}

impl<'l, C: AggregationContext> PreparedOperation<C> for PreparedChangeRef<'l, C> {
    open spec fn ready(&self, nodes: Seq<AggregationNode<C::Data>>) -> bool {
        forward_within(self@, 0, nodes.len() as int)
    }

    open spec fn effect(&self, ctx: C, nodes: Seq<AggregationNode<C::Data>>) -> Seq<
        AggregationNode<C::Data>,
    > {
        propagate(ctx, nodes, self@, nodes.len())
    }

    /// Applies the prepared change to each upper, and so on upward until no
    /// step hands anything on.
    fn apply(self, ctx: &C, hierarchy: &mut Hierarchy<C::Data>) {
        let ghost levels = hierarchy@.len();
        self.apply_within(ctx, hierarchy, Ghost(levels));
    }
}

impl<C: AggregationContext, P: PreparedOperation<C>> PreparedOperation<C> for Option<P> {
    open spec fn ready(&self, nodes: Seq<AggregationNode<C::Data>>) -> bool {
        match self {
            Some(p) => p.ready(nodes),
            None => true,
        }
    }

    open spec fn effect(&self, ctx: C, nodes: Seq<AggregationNode<C::Data>>) -> Seq<
        AggregationNode<C::Data>,
    > {
        match self {
            Some(p) => p.effect(ctx, nodes),
            None => nodes,
        }
    }

    /// Carries out the work, if there is any.
    fn apply(self, ctx: &C, hierarchy: &mut Hierarchy<C::Data>) {
        if let Some(p) = self {
            p.apply(ctx, hierarchy);
        }
    }
}

impl<'l, C: AggregationContext> PreparedChangeRef<'l, C> {
    fn apply_within(self, ctx: &C, hierarchy: &mut Hierarchy<C::Data>, Ghost(levels): Ghost<nat>)
        requires
            old(hierarchy).wf(),
            levels <= old(hierarchy)@.len(),
            forward_within(self@, old(hierarchy)@.len() - levels, old(hierarchy)@.len() as int),
        ensures
            final(hierarchy).wf(),
            final(hierarchy)@.len() == old(hierarchy)@.len(),
            final(hierarchy)@ == propagate(*ctx, old(hierarchy)@, self@, levels),
        decreases levels, 1nat,
    {
        let ghost f = self@;
        match self {
            PreparedChangeRef::Borrowed { uppers, change } => {
                assert(f.uppers == uppers@);
                forward_change(ctx, hierarchy, &uppers, change, Ghost(levels));
            },
            PreparedChangeRef::Owned { uppers, change } => {
                assert(f.uppers == uppers@);
                forward_change(ctx, hierarchy, &uppers, &change, Ghost(levels));
            },
        }
    }
}

/// Applies an owned `change` to node `origin` and propagates it upward.
/// The origin is released after its step, before any upper is touched.
pub fn apply_change<C: AggregationContext>(
    ctx: &C,
    hierarchy: &mut Hierarchy<C::Data>,
    origin: usize,
    change: C::DataChange,
)
    requires
        old(hierarchy).wf(),
        origin < old(hierarchy)@.len(),
    ensures
        final(hierarchy).wf(),
        final(hierarchy)@ == propagate_from(*ctx, old(hierarchy)@, origin as int, change),
{
    proof {
        lemma_step_keeps_shape(*ctx, hierarchy@, origin as int, change);
    }
    let node = hierarchy.node(origin);
    let prepared = node.apply_change(ctx, change);
    prepared.apply(ctx, hierarchy);
}

/// Applies a borrowed `change` to node `origin` and propagates it upward.
/// The origin is released after its step, before any upper is touched.
pub fn apply_change_ref<C: AggregationContext>(
    ctx: &C,
    hierarchy: &mut Hierarchy<C::Data>,
    origin: usize,
    change: &C::DataChange,
)
    requires
        old(hierarchy).wf(),
        origin < old(hierarchy)@.len(),
    ensures
        final(hierarchy).wf(),
        final(hierarchy)@ == propagate_from(*ctx, old(hierarchy)@, origin as int, *change),
{
    proof {
        lemma_step_keeps_shape(*ctx, hierarchy@, origin as int, *change);
    }
    let node = hierarchy.node(origin);
    let prepared = node.apply_change_ref(ctx, change);
    prepared.apply(ctx, hierarchy);
}

} // verus!
