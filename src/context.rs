use vstd::prelude::*;

verus! {

/// The capability that gives a hierarchy its aggregation semantics: how a
/// change is folded into a node's data, and which change, if any, goes on to
/// the node's uppers.
pub trait AggregationContext {
    type Data;

    type DataChange;

    /// The data of a node after `change` was merged into `data`.
    spec fn merged(&self, data: Self::Data, change: Self::DataChange) -> Self::Data;

    /// The change to forward to the uppers of a node whose data was `data`
    /// when `change` was merged into it; `None` when the merge absorbed it.
    spec fn forwarded(&self, data: Self::Data, change: Self::DataChange) -> Option<
        Self::DataChange,
    >;

    /// Merges `change` into `data` in place and returns the change to forward.
    fn apply_change(&self, data: &mut Self::Data, change: &Self::DataChange) -> (r: Option<
        Self::DataChange,
    >)
        ensures
            *final(data) == self.merged(*old(data), *change),
            r == self.forwarded(*old(data), *change),
    ;
}

} // verus!
