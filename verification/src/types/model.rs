//! Models of sequences and of optional items.

use vstd::prelude::*;

verus! {

/// The models of the items, in order.
pub open spec fn views<T: View>(items: Seq<T>) -> Seq<T::V> {
    items.map_values(|item: T| item@)
}

/// The model of an optional item.
pub open spec fn option_view<T: View>(item: Option<T>) -> Option<T::V> {
    match item {
        Some(item) => Some(item@),
        None => None,
    }
}

/// The model of an optional borrowed item.
pub open spec fn option_ref_view<T: View>(item: Option<&T>) -> Option<T::V> {
    match item {
        Some(item) => Some(item@),
        None => None,
    }
}

} // verus!
