//! Collections that are ordered by an integer key.

use vstd::prelude::*;

verus! {

/// An item that is found by an integer key.
pub trait Keyed {
    /// The key of the item.
    spec fn key_of(&self) -> u32;

    /// Reads the key of the item.
    fn key(&self) -> (key: u32)
        ensures
            key == self.key_of(),
    ;
}

/// The keys of the items, in order.
pub open spec fn keys<T: Keyed>(items: Seq<T>) -> Seq<u32> {
    items.map_values(|item: T| item.key_of())
}

/// Every key is below all keys behind it: the keys ascend, and none occurs
/// twice.
pub open spec fn strictly_increasing(keys: Seq<u32>) -> bool {
    forall|i: int, j: int| 0 <= i < j < keys.len() ==> keys[i] < keys[j]
}

/// Tells whether the items are in ascending order of their keys, with no
/// key twice.
pub fn is_strictly_increasing<T: Keyed>(items: &[T]) -> (sorted: bool)
    ensures
        sorted == strictly_increasing(keys(items@)),
{
    if items.len() < 2 {
        return true;
    }
    let mut i: usize = 1;
    while i < items.len()
        invariant
            1 <= i <= items.len(),
            strictly_increasing(keys(items@).take(i as int)),
        decreases items.len() - i,
    {
        if items[i - 1].key() >= items[i].key() {
            assert(keys(items@)[i - 1] >= keys(items@)[i as int]);
            return false;
        }
        let ghost before = keys(items@).take(i as int);
        let ghost upto = keys(items@).take(i + 1);
        assert forall|a: int, b: int| 0 <= a < b < upto.len() implies upto[a] < upto[b] by {
            if b < i {
                assert(before[a] < before[b]);
            } else if a < i - 1 {
                assert(before[a] < before[i - 1]);
            }
        }
        i += 1;
    }
    assert(keys(items@).take(i as int) == keys(items@));
    true
}

} // verus!
