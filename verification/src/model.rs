//! The models of optional values and of sequences, shared by the contracts.

use vstd::prelude::*;

verus! {

/// The model of an optional value.
pub open spec fn view_of<T: View>(value: Option<T>) -> Option<T::V> {
    match value {
        Some(v) => Some(v@),
        None => None,
    }
}

/// The models of the items of a sequence, in order.
pub open spec fn views<T: View>(items: Seq<T>) -> Seq<T::V> {
    Seq::new(items.len(), |i: int| items[i]@)
}

} // verus!
