//! A dictionary whose keys are told apart by what they say: no two entries have keys
//! with the same view.

use crate::views::SameView;
use vstd::prelude::*;
use vstd::std_specs::cmp::PartialEqSpecImpl;

verus! {

/// No two entries of `s` have keys that say the same.
pub open spec fn distinct_keys<K: View, V>(s: Seq<(K, V)>) -> bool {
    forall|i: int, j: int| 0 <= i < j < s.len() ==> (#[trigger] s[i]).0@ != (#[trigger] s[j]).0@
}

/// Some entry of `s` has a key that says `k`.
pub open spec fn has_key<K: View, V>(s: Seq<(K, V)>, k: K::V) -> bool {
    exists|i: int| 0 <= i < s.len() && (#[trigger] s[i]).0@ == k
}

/// The dictionary that a list of entries builds when they are inserted in order: of two
/// entries with one key the later stays.
pub open spec fn pairs_map<K: View, V: View>(s: Seq<(K, V)>) -> Map<K::V, V::V>
    decreases s.len(),
{
    if s.len() == 0 {
        Map::empty()
    } else {
        pairs_map(s.drop_last()).insert(s.last().0@, s.last().1@)
    }
}

/// The keys of `pairs_map(s)` are the keys of the entries of `s`.
pub proof fn lemma_pairs_map_dom<K: View, V: View>(s: Seq<(K, V)>)
    ensures
        forall|k: K::V| #[trigger] pairs_map(s).dom().contains(k) <==> has_key(s, k),
    decreases s.len(),
{
    if s.len() > 0 {
        let head = s.drop_last();
        lemma_pairs_map_dom(head);
        assert forall|k: K::V| #[trigger] pairs_map(s).dom().contains(k) <==> has_key(s, k) by {
            if pairs_map(s).dom().contains(k) {
                if k == s.last().0@ {
                    assert(s[s.len() - 1].0@ == k);
                } else {
                    assert(pairs_map(head).dom().contains(k));
                    assert(has_key(head, k));
                    let i = choose|i: int| 0 <= i < head.len() && (#[trigger] head[i]).0@ == k;
                    assert(s[i].0@ == k);
                }
            }
            if has_key(s, k) {
                let i = choose|i: int| 0 <= i < s.len() && (#[trigger] s[i]).0@ == k;
                if i < s.len() - 1 {
                    assert(head[i].0@ == k);
                    assert(has_key(head, k));
                    assert(pairs_map(head).dom().contains(k));
                }
            }
        }
    }
}

/// A beginning of a list with distinct keys has distinct keys.
pub proof fn lemma_distinct_keys_prefix<K: View, V>(s: Seq<(K, V)>, n: int)
    requires
        distinct_keys(s),
        0 <= n <= s.len(),
    ensures
        distinct_keys(s.subrange(0, n)),
{
    let head = s.subrange(0, n);
    assert forall|a: int, b: int| 0 <= a < b < head.len() implies (#[trigger] head[a]).0@ != (
    #[trigger] head[b]).0@ by {
        assert(s[a].0@ != s[b].0@);
    }
}

/// Where the keys are distinct, each entry's key maps to that entry's value.
pub proof fn lemma_pairs_map_at<K: View, V: View>(s: Seq<(K, V)>, i: int)
    requires
        distinct_keys(s),
        0 <= i < s.len(),
    ensures
        pairs_map(s).dom().contains(s[i].0@),
        pairs_map(s)[s[i].0@] == s[i].1@,
    decreases s.len(),
{
    if i < s.len() - 1 {
        let head = s.drop_last();
        lemma_distinct_keys_prefix(s, s.len() - 1);
        assert(head =~= s.subrange(0, s.len() - 1));
        lemma_pairs_map_at(head, i);
        assert(head[i] == s[i]);
        assert(s[i].0@ != s[s.len() - 1].0@);
    }
}

/// Two lists whose entries say the same, place by place, build the same dictionary, and
/// have distinct keys together.
pub proof fn lemma_pairs_map_copy<K: View, V: View>(s: Seq<(K, V)>, t: Seq<(K, V)>)
    requires
        s.len() == t.len(),
        forall|i: int| 0 <= i < s.len() ==> (#[trigger] s[i]).0@ == t[i].0@ && s[i].1@ == t[i].1@,
    ensures
        pairs_map(s) == pairs_map(t),
        distinct_keys(t) ==> distinct_keys(s),
    decreases s.len(),
{
    if s.len() > 0 {
        let s0 = s.drop_last();
        let t0 = t.drop_last();
        assert forall|i: int| 0 <= i < s0.len() implies (#[trigger] s0[i]).0@ == t0[i].0@
            && s0[i].1@ == t0[i].1@ by {
            assert(s[i].0@ == t[i].0@);
        }
        lemma_pairs_map_copy(s0, t0);
        assert(s[s.len() - 1].0@ == t[s.len() - 1].0@);
    }
    if distinct_keys(t) {
        assert forall|a: int, b: int| 0 <= a < b < s.len() implies (#[trigger] s[a]).0@ != (
        #[trigger] s[b]).0@ by {
            assert(t[a].0@ != t[b].0@);
        }
    }
}

/// Replacing the value of entry `i` replaces the value under its key.
proof fn lemma_pairs_map_update<K: View, V: View>(s: Seq<(K, V)>, i: int, entry: (K, V))
    requires
        distinct_keys(s),
        0 <= i < s.len(),
        entry.0@ == s[i].0@,
    ensures
        distinct_keys(s.update(i, entry)),
        pairs_map(s.update(i, entry)) == pairs_map(s).insert(entry.0@, entry.1@),
{
    let t = s.update(i, entry);
    assert forall|a: int, b: int| 0 <= a < b < t.len() implies (#[trigger] t[a]).0@ != (
    #[trigger] t[b]).0@ by {
        assert(s[a].0@ != s[b].0@);
    }
    lemma_pairs_map_dom(s);
    lemma_pairs_map_dom(t);
    let want = pairs_map(s).insert(entry.0@, entry.1@);
    assert forall|k: K::V| #[trigger] pairs_map(t).dom().contains(k) implies want.dom().contains(k)
        && want[k] == pairs_map(t)[k] by {
        assert(has_key(t, k));
        let j = choose|j: int| 0 <= j < t.len() && (#[trigger] t[j]).0@ == k;
        lemma_pairs_map_at(t, j);
        if j != i {
            assert(t[j] == s[j]);
            lemma_pairs_map_at(s, j);
            assert(s[j].0@ != s[i].0@);
        }
    }
    assert forall|k: K::V| #[trigger] want.dom().contains(k) implies pairs_map(t).dom().contains(
        k,
    ) by {
        if k == entry.0@ {
            assert(t[i].0@ == k);
        } else {
            assert(has_key(s, k));
            let j = choose|j: int| 0 <= j < s.len() && (#[trigger] s[j]).0@ == k;
            assert(j != i);
            assert(t[j].0@ == k);
        }
        assert(has_key(t, k));
    }
    assert(pairs_map(t) =~= want);
}

/// An entry with a new key, added at the end, adds its key.
proof fn lemma_pairs_map_push<K: View, V: View>(s: Seq<(K, V)>, entry: (K, V))
    requires
        distinct_keys(s),
        !has_key(s, entry.0@),
    ensures
        distinct_keys(s.push(entry)),
        pairs_map(s.push(entry)) == pairs_map(s).insert(entry.0@, entry.1@),
{
    let longer = s.push(entry);
    assert(longer.drop_last() =~= s);
    assert forall|a: int, b: int| 0 <= a < b < longer.len() implies (#[trigger] longer[a]).0@ != (
    #[trigger] longer[b]).0@ by {
        if b < s.len() {
            assert(s[a].0@ != s[b].0@);
        } else {
            assert(s[a].0@ != entry.0@);
        }
    }
}

/// Taking entry `i` out takes its key out.
proof fn lemma_pairs_map_remove<K: View, V: View>(s: Seq<(K, V)>, i: int)
    requires
        distinct_keys(s),
        0 <= i < s.len(),
    ensures
        distinct_keys(s.remove(i)),
        pairs_map(s.remove(i)) == pairs_map(s).remove(s[i].0@),
{
    let t = s.remove(i);
    assert forall|a: int, b: int| 0 <= a < b < t.len() implies (#[trigger] t[a]).0@ != (
    #[trigger] t[b]).0@ by {
        let a0 = if a < i { a } else { a + 1 };
        let b0 = if b < i { b } else { b + 1 };
        assert(t[a] == s[a0] && t[b] == s[b0]);
        assert(s[a0].0@ != s[b0].0@);
    }
    lemma_pairs_map_dom(s);
    lemma_pairs_map_dom(t);
    let want = pairs_map(s).remove(s[i].0@);
    assert forall|k: K::V| #[trigger] pairs_map(t).dom().contains(k) implies want.dom().contains(k)
        && want[k] == pairs_map(t)[k] by {
        assert(has_key(t, k));
        let j = choose|j: int| 0 <= j < t.len() && (#[trigger] t[j]).0@ == k;
        let j0 = if j < i { j } else { j + 1 };
        assert(t[j] == s[j0]);
        lemma_pairs_map_at(t, j);
        lemma_pairs_map_at(s, j0);
        if j0 < i {
            assert(s[j0].0@ != s[i].0@);
        } else {
            assert(s[i].0@ != s[j0].0@);
        }
    }
    assert forall|k: K::V| #[trigger] want.dom().contains(k) implies pairs_map(t).dom().contains(
        k,
    ) by {
        assert(has_key(s, k));
        let j0 = choose|j: int| 0 <= j < s.len() && (#[trigger] s[j]).0@ == k;
        assert(j0 != i);
        let j = if j0 < i { j0 } else { j0 - 1 };
        assert(t[j] == s[j0]);
        assert(has_key(t, k));
    }
    assert(pairs_map(t) =~= want);
}

/// A list with distinct keys builds a dictionary with as many keys as it has entries.
pub proof fn lemma_pairs_map_len<K: View, V: View>(s: Seq<(K, V)>)
    requires
        distinct_keys(s),
    ensures
        pairs_map(s).dom().finite(),
        pairs_map(s).len() == s.len(),
    decreases s.len(),
{
    if s.len() > 0 {
        let head = s.drop_last();
        lemma_distinct_keys_prefix(s, s.len() - 1);
        assert(head =~= s.subrange(0, s.len() - 1));
        lemma_pairs_map_len(head);
        lemma_pairs_map_dom(head);
        if has_key(head, s.last().0@) {
            let i = choose|i: int| 0 <= i < head.len() && (#[trigger] head[i]).0@ == s.last().0@;
            assert(s[i].0@ != s[s.len() - 1].0@);
        }
        assert(pairs_map(s).dom() =~= pairs_map(head).dom().insert(s.last().0@));
    } else {
        assert(pairs_map(s).dom() =~= Set::<K::V>::empty());
    }
}

/// A dictionary. Entries are kept in the order in which their keys were first
/// inserted.
#[derive(Debug)]
pub struct ViewMap<K: SameView, V: SameView> {
    entries: Vec<(K, V)>,
}

impl<K: SameView, V: SameView> View for ViewMap<K, V> {
    type V = Map<K::V, V::V>;

    closed spec fn view(&self) -> Map<K::V, V::V> {
        pairs_map(self.entries@)
    }
}

impl<K: SameView, V: SameView> ViewMap<K, V> {
    #[verifier::type_invariant]
    spec fn well_formed(&self) -> bool {
        distinct_keys(self.entries@)
    }

    /// The empty dictionary.
    pub fn new() -> (r: ViewMap<K, V>)
        ensures
            r@ == Map::<K::V, V::V>::empty(),
    {
        ViewMap { entries: Vec::new() }
    }

    /// The place of `key` among the entries, if it has one.
    fn position(&self, key: &K) -> (r: Option<usize>)
        ensures
            match r {
                Some(i) => i < self.entries.len() && self.entries[i as int].0@ == key@,
                None => !has_key(self.entries@, key@),
            },
    {
        let mut i: usize = 0;
        while i < self.entries.len()
            invariant
                i <= self.entries.len(),
                forall|j: int| 0 <= j < i ==> (#[trigger] self.entries[j]).0@ != key@,
            decreases self.entries.len() - i,
        {
            if self.entries[i].0.same(key) {
                return Some(i);
            }
            i = i + 1;
        }
        None
    }

    /// The value under `key`, if the dictionary has the key.
    pub fn get(&self, key: &K) -> (r: Option<&V>)
        ensures
            r is Some <==> self@.contains_key(key@),
            r matches Some(v) ==> v@ == self@[key@],
    {
        proof {
            use_type_invariant(self);
            lemma_pairs_map_dom(self.entries@);
        }
        match self.position(key) {
            Some(i) => {
                proof {
                    lemma_pairs_map_at(self.entries@, i as int);
                }
                Some(&self.entries[i].1)
            },
            None => {
                assert(!self@.dom().contains(key@));
                None
            },
        }
    }

    /// Whether the dictionary has `key`.
    pub fn contains_key(&self, key: &K) -> (r: bool)
        ensures
            r == self@.contains_key(key@),
    {
        self.get(key).is_some()
    }

    /// Puts `value` under `key`, in place of any value that was there.
    pub fn insert(&mut self, key: K, value: V)
        ensures
            final(self)@ == old(self)@.insert(key@, value@),
    {
        proof {
            use_type_invariant(&*self);
        }
        let found = self.position(&key);
        let mut entries: Vec<(K, V)> = Vec::new();
        std::mem::swap(&mut entries, &mut self.entries);
        match found {
            Some(i) => {
                proof {
                    lemma_pairs_map_update(entries@, i as int, (key, value));
                }
                entries.set(i, (key, value));
            },
            None => {
                proof {
                    lemma_pairs_map_push(entries@, (key, value));
                }
                entries.push((key, value));
            },
        }
        self.entries = entries;
    }

    /// Takes `key` out; true where the dictionary had it.
    pub fn remove(&mut self, key: &K) -> (r: bool)
        ensures
            r == old(self)@.contains_key(key@),
            final(self)@ == old(self)@.remove(key@),
    {
        proof {
            use_type_invariant(&*self);
            lemma_pairs_map_dom(self.entries@);
        }
        match self.position(key) {
            Some(i) => {
                let mut entries: Vec<(K, V)> = Vec::new();
                std::mem::swap(&mut entries, &mut self.entries);
                proof {
                    lemma_pairs_map_at(entries@, i as int);
                    lemma_pairs_map_remove(entries@, i as int);
                }
                let _ = entries.remove(i);
                self.entries = entries;
                true
            },
            None => {
                assert(!self@.dom().contains(key@));
                assert(self@.remove(key@) =~= self@);
                false
            },
        }
    }

    /// The number of keys.
    pub fn len(&self) -> (r: usize)
        ensures
            r == self@.len(),
            self@.dom().finite(),
    {
        proof {
            use_type_invariant(self);
            lemma_pairs_map_len(self.entries@);
        }
        self.entries.len()
    }

    /// The entries, each key once, in the order in which the keys were first inserted.
    pub fn entries(&self) -> (r: Vec<(K, V)>)
        ensures
            distinct_keys(r@),
            pairs_map(r@) == self@,
    {
        proof {
            use_type_invariant(self);
        }
        let mut out: Vec<(K, V)> = Vec::new();
        let mut i: usize = 0;
        while i < self.entries.len()
            invariant
                i <= self.entries.len(),
                out@.len() == i,
                forall|j: int|
                    0 <= j < i ==> (#[trigger] out@[j]).0@ == self.entries@[j].0@ && out@[j].1@
                        == self.entries@[j].1@,
            decreases self.entries.len() - i,
        {
            out.push((self.entries[i].0.copy(), self.entries[i].1.copy()));
            i = i + 1;
        }
        proof {
            lemma_pairs_map_copy(out@, self.entries@);
        }
        out
    }

    /// Whether every key of `self` is a key of `other`, with a value that says the
    /// same.
    fn included_in(&self, other: &ViewMap<K, V>) -> (r: bool)
        ensures
            r == self@.submap_of(other@),
    {
        proof {
            use_type_invariant(self);
            lemma_pairs_map_dom(self.entries@);
        }
        let mut i: usize = 0;
        while i < self.entries.len()
            invariant
                i <= self.entries.len(),
                distinct_keys(self.entries@),
                forall|j: int|
                    0 <= j < i ==> other@.dom().contains((#[trigger] self.entries[j]).0@)
                        && other@[self.entries[j].0@] == self.entries[j].1@,
            decreases self.entries.len() - i,
        {
            proof {
                lemma_pairs_map_at(self.entries@, i as int);
            }
            let same = match other.get(&self.entries[i].0) {
                Some(v) => v.same(&self.entries[i].1),
                None => false,
            };
            if !same {
                assert(self@.dom().contains(self.entries[i as int].0@));
                assert(!self@.submap_of(other@));
                return false;
            }
            i = i + 1;
        }
        proof {
            assert forall|k: K::V| #[trigger] self@.dom().contains(k) implies other@.dom().contains(
                k,
            ) && self@[k] == other@[k] by {
                assert(has_key(self.entries@, k));
                let j = choose|j: int|
                    0 <= j < self.entries@.len() && (#[trigger] self.entries@[j]).0@ == k;
                lemma_pairs_map_at(self.entries@, j);
            }
        }
        true
    }
}

impl<K: SameView, V: SameView> Clone for ViewMap<K, V> {
    fn clone(&self) -> (r: ViewMap<K, V>)
        ensures
            r@ == self@,
    {
        ViewMap { entries: self.entries() }
    }
}

impl<K: SameView, V: SameView> ViewMap<K, V> {
    /// Whether the two dictionaries have the same keys, with values that say the same.
    pub fn says_the_same(&self, other: &ViewMap<K, V>) -> (r: bool)
        ensures
            r == (self@ == other@),
    {
        let within = self.included_in(other);
        let covers = other.included_in(self);
        proof {
            if within && covers {
                assert forall|k: K::V|
                    self@.dom().contains(k) == other@.dom().contains(k) && (self@.dom().contains(k)
                        ==> self@[k] == other@[k]) by {
                    // each inclusion speaks of a key once both memberships are named
                    let mine = self@.dom().contains(k);
                    let theirs = other@.dom().contains(k);
                }
                assert(self@.dom() =~= other@.dom());
                assert(self@ =~= other@);
            } else {
                assert(self@.submap_of(self@));
                assert(self@ != other@);
            }
        }
        within && covers
    }
}

impl<K: SameView, V: SameView> PartialEq for ViewMap<K, V> {
    fn eq(&self, other: &ViewMap<K, V>) -> (r: bool) {
        self.says_the_same(other)
    }
}

impl<K: SameView, V: SameView> PartialEqSpecImpl for ViewMap<K, V> {
    open spec fn obeys_eq_spec() -> bool {
        true
    }

    open spec fn eq_spec(&self, other: &ViewMap<K, V>) -> bool {
        self@ == other@
    }
}

} // verus!
