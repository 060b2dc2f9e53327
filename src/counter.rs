use vstd::prelude::*;

use crate::context::AggregationContext;

verus! {

/// A counter: the data is a signed integer, a change a signed delta that is
/// added to it (wrapping at the bounds of `i64`) and forwarded as it is.
pub struct SignedCounter;

impl AggregationContext for SignedCounter {
    type Data = i64;

    type DataChange = i64;

    open spec fn merged(&self, data: i64, change: i64) -> i64 {
        data.wrapping_add(change)
    }

    open spec fn forwarded(&self, data: i64, change: i64) -> Option<i64> {
        Some(change)
    }

    fn apply_change(&self, data: &mut i64, change: &i64) -> (r: Option<i64>) {
        *data = data.wrapping_add(*change);
        Some(*change)
    }
}

/// A counter that reports upward only when it becomes active: the delta is
/// added to the data, and forwarded only when the data goes from zero to
/// a value other than zero.
pub struct ActivationCounter;

impl AggregationContext for ActivationCounter {
    type Data = i64;

    type DataChange = i64;

    open spec fn merged(&self, data: i64, change: i64) -> i64 {
        data.wrapping_add(change)
    }

    open spec fn forwarded(&self, data: i64, change: i64) -> Option<i64> {
        if data == 0 && data.wrapping_add(change) != 0 {
            Some(change)
        } else {
            None
        }
    }

    fn apply_change(&self, data: &mut i64, change: &i64) -> (r: Option<i64>) {
        let was_zero = *data == 0;
        *data = data.wrapping_add(*change);
        if was_zero && *data != 0 {
            Some(*change)
        } else {
            None
        }
    }
}

/// Two deltas added one after the other give the same counter in either
/// order.
pub proof fn lemma_deltas_commute(d: i64, a: i64, b: i64)
    ensures
        d.wrapping_add(a).wrapping_add(b) == d.wrapping_add(b).wrapping_add(a),
{
}

} // verus!
