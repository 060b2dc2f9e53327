use vstd::prelude::*;

use crate::node::AggregationNode;

verus! {

/// Every upper link of node `i` names a node of higher index. Links thus
/// always lead upward and a propagation ends after at most `len` levels.
pub open spec fn well_formed<D>(nodes: Seq<AggregationNode<D>>) -> bool {
    forall|i: int, k: int|
        0 <= i < nodes.len() && 0 <= k < nodes[i].uppers_spec().len() ==> i
            < #[trigger] nodes[i].uppers_spec()[k] < nodes.len()
}

/// An already built hierarchy of nodes, addressed by index.
pub struct Hierarchy<D> {
    nodes: Vec<AggregationNode<D>>,
}

impl<D> View for Hierarchy<D> {
    type V = Seq<AggregationNode<D>>;

    closed spec fn view(&self) -> Seq<AggregationNode<D>> {
        self.nodes@
    }
}

impl<D> Hierarchy<D> {
    pub open spec fn wf(&self) -> bool {
        well_formed(self@)
    }

    /// Takes the nodes as they are, when every upper link leads to a node of
    /// higher index; `None` otherwise.
    pub fn new(nodes: Vec<AggregationNode<D>>) -> (r: Option<Self>)
        ensures
            r is Some <==> well_formed(nodes@),
            r matches Some(h) ==> h@ == nodes@,
    {
        let n = nodes.len();
        let mut i: usize = 0;
        while i < n
            invariant
                n == nodes@.len(),
                i <= n,
                forall|j: int, k: int|
                    0 <= j < i && 0 <= k < nodes@[j].uppers_spec().len() ==> j
                        < #[trigger] nodes@[j].uppers_spec()[k] < n,
            decreases n - i,
        {
            let uppers = nodes[i].uppers();
            let mut k: usize = 0;
            while k < uppers.len()
                invariant
                    n == nodes@.len(),
                    i < n,
                    uppers@ == nodes@[i as int].uppers_spec(),
                    k <= uppers@.len(),
                    forall|l: int| 0 <= l < k ==> i < #[trigger] uppers@[l] < n,
                decreases uppers@.len() - k,
            {
                if uppers[k] <= i || uppers[k] >= n {
                    return None;
                }
                k = k + 1;
            }
            i = i + 1;
        }
        Some(Hierarchy { nodes })
    }

    pub fn len(&self) -> (r: usize)
        ensures
            r == self@.len(),
    {
        self.nodes.len()
    }

    pub fn get(&self, i: usize) -> (r: &AggregationNode<D>)
        requires
            i < self@.len(),
        ensures
            *r == self@[i as int],
    {
        &self.nodes[i]
    }

    /// Exclusive access to one node, for the span of one change-application
    /// step.
    pub(crate) fn node(&mut self, i: usize) -> (r: &mut AggregationNode<D>)
        requires
            i < old(self)@.len(),
        ensures
            *r == old(self)@[i as int],
            final(self)@ == old(self)@.update(i as int, *final(r)),
    {
        &mut self.nodes[i]
    }
}

} // verus!
