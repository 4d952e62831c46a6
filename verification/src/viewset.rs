//! A set of values that are told apart by what they say: no two members have the same
//! view.

use crate::views::{views, SameView};
use vstd::prelude::*;
use vstd::std_specs::cmp::PartialEqSpecImpl;

verus! {

/// No two of `items` have the same view.
pub open spec fn distinct_views<T: View>(items: Seq<T>) -> bool {
    forall|i: int, j: int|
        0 <= i < j < items.len() ==> (#[trigger] items[i])@ != (#[trigger] items[j])@
}

/// A set of values, each view once. Members are kept in the order in which they
/// were inserted.
#[derive(Debug)]
pub struct ViewSet<T: SameView> {
    items: Vec<T>,
}

impl<T: SameView> View for ViewSet<T> {
    type V = Set<T::V>;

    closed spec fn view(&self) -> Set<T::V> {
        views(self.items@).to_set()
    }
}

impl<T: SameView> ViewSet<T> {
    #[verifier::type_invariant]
    spec fn well_formed(&self) -> bool {
        distinct_views(self.items@)
    }

    /// The empty set.
    pub fn new() -> (r: ViewSet<T>)
        ensures
            r@ == Set::<T::V>::empty(),
    {
        let r = ViewSet { items: Vec::new() };
        assert(views(r.items@).to_set() =~= Set::<T::V>::empty());
        r
    }

    /// Whether the set has a member that says what `item` says.
    pub fn contains(&self, item: &T) -> (r: bool)
        ensures
            r == self@.contains(item@),
    {
        let mut i: usize = 0;
        while i < self.items.len()
            invariant
                i <= self.items.len(),
                forall|j: int| 0 <= j < i ==> (#[trigger] self.items@[j])@ != item@,
            decreases self.items.len() - i,
        {
            if self.items[i].same(item) {
                assert(views(self.items@)[i as int] == item@);
                return true;
            }
            i = i + 1;
        }
        assert(!views(self.items@).contains(item@)) by {
            if views(self.items@).contains(item@) {
                let j = choose|j: int|
                    0 <= j < views(self.items@).len() && views(self.items@)[j] == item@;
                assert(self.items@[j]@ == item@);
            }
        }
        false
    }

    /// Makes `item` a member, unless a member says the same; true where it was
    /// added.
    pub fn insert(&mut self, item: T) -> (r: bool)
        ensures
            r == !old(self)@.contains(item@),
            final(self)@ == old(self)@.insert(item@),
    {
        proof {
            use_type_invariant(&*self);
        }
        if self.contains(&item) {
            assert(self@.insert(item@) =~= self@);
            return false;
        }
        let mut items: Vec<T> = Vec::new();
        std::mem::swap(&mut items, &mut self.items);
        proof {
            let longer = items@.push(item);
            assert(views(longer) =~= views(items@).push(item@));
            assert forall|a: int, b: int| 0 <= a < b < longer.len() implies (#[trigger] longer[a])@
                != (#[trigger] longer[b])@ by {
                if b < items@.len() {
                    assert(items@[a]@ != items@[b]@);
                } else {
                    assert(views(items@)[a] == items@[a]@);
                }
            }
            assert forall|v: T::V| views(longer).to_set().contains(v) <==> views(
                items@,
            ).to_set().insert(item@).contains(v) by {
                if views(longer).contains(v) {
                    let j = choose|j: int| 0 <= j < views(longer).len() && views(longer)[j] == v;
                    if j < items@.len() {
                        assert(views(items@)[j] == v);
                    }
                }
                if views(items@).contains(v) {
                    let j = choose|j: int| 0 <= j < views(items@).len() && views(items@)[j] == v;
                    assert(views(longer)[j] == v);
                }
                if v == item@ {
                    assert(views(longer)[items@.len() as int] == v);
                }
            }
            assert(views(longer).to_set() =~= views(items@).to_set().insert(item@));
        }
        items.push(item);
        self.items = items;
        true
    }

    /// The members, in the order in which they were inserted, each once.
    pub fn members(&self) -> (r: Vec<T>)
        ensures
            distinct_views(r@),
            views(r@).to_set() == self@,
    {
        proof {
            use_type_invariant(self);
        }
        let mut out: Vec<T> = Vec::new();
        let mut i: usize = 0;
        while i < self.items.len()
            invariant
                i <= self.items.len(),
                out@.len() == i,
                forall|j: int| 0 <= j < i ==> (#[trigger] out@[j])@ == self.items@[j]@,
            decreases self.items.len() - i,
        {
            out.push(self.items[i].copy());
            i = i + 1;
        }
        proof {
            assert(views(out@) =~= views(self.items@));
            assert forall|a: int, b: int| 0 <= a < b < out@.len() implies (#[trigger] out@[a])@ != (
            #[trigger] out@[b])@ by {
                assert(self.items@[a]@ != self.items@[b]@);
            }
        }
        out
    }

    /// Whether every member of `self` says what some member of `other` says.
    fn included_in(&self, other: &ViewSet<T>) -> (r: bool)
        ensures
            r == self@.subset_of(other@),
    {
        let mut i: usize = 0;
        while i < self.items.len()
            invariant
                i <= self.items.len(),
                forall|j: int| 0 <= j < i ==> other@.contains((#[trigger] self.items@[j])@),
            decreases self.items.len() - i,
        {
            if !other.contains(&self.items[i]) {
                assert(views(self.items@)[i as int] == self.items@[i as int]@);
                assert(self@.contains(self.items@[i as int]@));
                return false;
            }
            i = i + 1;
        }
        assert forall|v: T::V| self@.contains(v) implies other@.contains(v) by {
            let j = choose|j: int| 0 <= j < views(self.items@).len() && views(self.items@)[j] == v;
            assert(self.items@[j]@ == v);
        }
        true
    }
}

impl<T: SameView> Clone for ViewSet<T> {
    fn clone(&self) -> (r: ViewSet<T>)
        ensures
            r@ == self@,
    {
        ViewSet { items: self.members() }
    }
}

impl<T: SameView> PartialEq for ViewSet<T> {
    fn eq(&self, other: &ViewSet<T>) -> (r: bool) {
        let r = self.included_in(other) && other.included_in(self);
        proof {
            if r {
                assert(self@ =~= other@);
            }
        }
        r
    }
}

impl<T: SameView> PartialEqSpecImpl for ViewSet<T> {
    open spec fn obeys_eq_spec() -> bool {
        true
    }

    open spec fn eq_spec(&self, other: &ViewSet<T>) -> bool {
        self@ == other@
    }
}

} // verus!
