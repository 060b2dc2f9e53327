use vstd::prelude::*;

use crate::context::AggregationContext;

verus! {

/// The data and upper links of an aggregating node.
pub struct AggregatingNode<D> {
    pub data: D,
    pub uppers: Vec<usize>,
}

/// A node of the hierarchy. Upper links are indices of other nodes.
pub enum AggregationNode<D> {
    /// Holds no data; forwards every change to its uppers.
    Leaf { uppers: Vec<usize> },
    /// Holds an aggregate value and folds changes into it.
    Aggregating(AggregatingNode<D>),
}

/// A change to apply to each of `uppers`, as the contracts speak of it.
pub struct Forward<X> {
    pub uppers: Seq<usize>,
    pub change: X,
}

impl<D> AggregationNode<D> {
    pub open spec fn uppers_spec(self) -> Seq<usize> {
        match self {
            AggregationNode::Leaf { uppers } => uppers@,
            AggregationNode::Aggregating(a) => a.uppers@,
        }
    }

    pub open spec fn data_spec(self) -> Option<D> {
        match self {
            AggregationNode::Leaf { .. } => None,
            AggregationNode::Aggregating(a) => Some(a.data),
        }
    }

    /// The node after `change` reached it: an aggregating node merges it
    /// into its data, a leaf stays as it is.
    pub open spec fn after_change<C: AggregationContext<Data = D>>(
        self,
        ctx: C,
        change: C::DataChange,
    ) -> AggregationNode<D> {
        match self {
            AggregationNode::Leaf { .. } => self,
            AggregationNode::Aggregating(a) => AggregationNode::Aggregating(
                AggregatingNode { data: ctx.merged(a.data, change), uppers: a.uppers },
            ),
        }
    }

    /// What the node hands on to its uppers when `change` reaches it. A leaf
    /// hands the change itself on; an aggregating node hands on what its
    /// merge forwards. Nothing is handed on where there are no uppers.
    pub open spec fn forward<C: AggregationContext<Data = D>>(
        self,
        ctx: C,
        change: C::DataChange,
    ) -> Option<Forward<C::DataChange>> {
        match self {
            AggregationNode::Leaf { uppers } => if uppers@.len() == 0 {
                None
            } else {
                Some(Forward { uppers: uppers@, change })
            },
            AggregationNode::Aggregating(a) => if a.uppers@.len() == 0 {
                None
            } else {
                match ctx.forwarded(a.data, change) {
                    Some(c) => Some(Forward { uppers: a.uppers@, change: c }),
                    None => None,
                }
            },
        }
    }
}

impl<D> AggregationNode<D> {
    pub fn uppers(&self) -> (r: &Vec<usize>)
        ensures
            r@ == self.uppers_spec(),
    {
        match self {
            AggregationNode::Leaf { uppers } => uppers,
            AggregationNode::Aggregating(a) => &a.uppers,
        }
    }

    /// The aggregate data of an aggregating node; `None` for a leaf.
    pub fn data(&self) -> (r: Option<&D>)
        ensures
            r is Some <==> self.data_spec() is Some,
            r matches Some(d) ==> self.data_spec() == Some(*d),
    {
        match self {
            AggregationNode::Leaf { .. } => None,
            AggregationNode::Aggregating(a) => Some(&a.data),
        }
    }
}

/// A copy of a list of node references.
pub(crate) fn copy_refs(v: &Vec<usize>) -> (r: Vec<usize>)
    ensures
        r@ == v@,
{
    let mut r: Vec<usize> = Vec::new();
    let mut i: usize = 0;
    while i < v.len()
        invariant
            i <= v@.len(),
            r@ == v@.subrange(0, i as int),
        decreases v@.len() - i,
    {
        r.push(v[i]);
        i = i + 1;
    }
    assert(r@ =~= v@);
    r
}

} // verus!
