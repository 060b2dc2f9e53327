use vstd::prelude::*;

pub mod calling_style;
pub mod change;
pub mod context;
pub mod counter;
pub mod hierarchy;
pub mod laws;
pub mod node;

verus! {

} // verus!
