//! Values seen by what they say: the view of a value, and values that can be compared
//! and copied by their views.

use vstd::prelude::*;

verus! {

/// Values that can be compared and copied by their views.
pub trait SameView: View + Sized {
    /// Whether `self` and `other` say the same.
    fn same(&self, other: &Self) -> (r: bool)
        ensures
            r == (self@ == other@),
    ;

    /// A copy of `self` that says the same.
    fn copy(&self) -> (r: Self)
        ensures
            r@ == self@,
    ;
}

/// The views of `items`, in order.
pub open spec fn views<T: View>(items: Seq<T>) -> Seq<T::V> {
    items.map_values(|item: T| item@)
}

impl SameView for String {
    fn same(&self, other: &String) -> (r: bool) {
        *self == *other
    }

    fn copy(&self) -> (r: String) {
        self.clone()
    }
}

impl SameView for u128 {
    fn same(&self, other: &u128) -> (r: bool) {
        *self == *other
    }

    fn copy(&self) -> (r: u128) {
        *self
    }
}

} // verus!
