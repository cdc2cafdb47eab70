//! How a run of values is spoken of in contracts.

use vstd::prelude::*;

verus! {

/// The views of a run of values, in order.
pub open spec fn views<T: View>(items: Seq<T>) -> Seq<T::V> {
    Seq::new(items.len(), |i: int| items[i]@)
}

} // verus!
