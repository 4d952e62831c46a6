//! The state of one task: a dictionary from property names to values. The store does not
//! interpret the properties.

use crate::viewmap::{distinct_keys, pairs_map, ViewMap};
use crate::views::SameView;
use vstd::prelude::*;
use vstd::std_specs::cmp::PartialEqSpecImpl;
use vstd::string::StringExecFns;

verus! {

/// The properties of one task, by name. Each name occurs once.
#[derive(Debug)]
pub struct TaskMap {
    properties: ViewMap<String, String>,
}

impl View for TaskMap {
    type V = Map<Seq<char>, Seq<char>>;

    closed spec fn view(&self) -> Map<Seq<char>, Seq<char>> {
        self.properties@
    }
}

impl TaskMap {
    /// The task without properties.
    pub fn new() -> (r: TaskMap)
        ensures
            r@ == Map::<Seq<char>, Seq<char>>::empty(),
    {
        TaskMap { properties: ViewMap::new() }
    }

    /// The value of the property `key`, if the task has it.
    pub fn get(&self, key: &str) -> (r: Option<&String>)
        ensures
            r is Some <==> self@.contains_key(key@),
            r matches Some(v) ==> v@ == self@[key@],
    {
        let owned = String::from_str(key);
        self.properties.get(&owned)
    }

    /// Whether the task has the property `key`.
    pub fn contains_key(&self, key: &str) -> (r: bool)
        ensures
            r == self@.contains_key(key@),
    {
        self.get(key).is_some()
    }

    /// Sets the property `key` to `value`, in place of any value it had.
    pub fn insert(&mut self, key: String, value: String)
        ensures
            final(self)@ == old(self)@.insert(key@, value@),
    {
        self.properties.insert(key, value);
    }

    /// Takes the property `key` out; true where the task had it.
    pub fn remove(&mut self, key: &str) -> (r: bool)
        ensures
            r == old(self)@.contains_key(key@),
            final(self)@ == old(self)@.remove(key@),
    {
        let owned = String::from_str(key);
        self.properties.remove(&owned)
    }

    /// How many properties the task has.
    pub fn len(&self) -> (r: usize)
        ensures
            r == self@.len(),
            self@.dom().finite(),
    {
        self.properties.len()
    }

    /// Whether the task has no property.
    pub fn is_empty(&self) -> (r: bool)
        ensures
            r == (self@ == Map::<Seq<char>, Seq<char>>::empty()),
    {
        let n = self.properties.len();
        proof {
            if n == 0 {
                self@.dom().lemma_len0_is_empty();
                assert(self@ =~= Map::<Seq<char>, Seq<char>>::empty());
            }
        }
        n == 0
    }

    /// The properties as a list of pairs of name and value, each name once.
    pub fn entries(&self) -> (r: Vec<(String, String)>)
        ensures
            distinct_keys(r@),
            pairs_map(r@) == self@,
    {
        self.properties.entries()
    }
}

impl Clone for TaskMap {
    fn clone(&self) -> (r: TaskMap)
        ensures
            r@ == self@,
    {
        TaskMap { properties: self.properties.clone() }
    }
}

impl Default for TaskMap {
    fn default() -> (r: TaskMap)
        ensures
            r@ == Map::<Seq<char>, Seq<char>>::empty(),
    {
        TaskMap::new()
    }
}

impl PartialEq for TaskMap {
    fn eq(&self, other: &TaskMap) -> (r: bool) {
        self.properties.says_the_same(&other.properties)
    }
}

impl PartialEqSpecImpl for TaskMap {
    open spec fn obeys_eq_spec() -> bool {
        true
    }

    open spec fn eq_spec(&self, other: &TaskMap) -> bool {
        self@ == other@
    }
}

impl SameView for TaskMap {
    fn same(&self, other: &TaskMap) -> (r: bool) {
        self.properties.says_the_same(&other.properties)
    }

    fn copy(&self) -> (r: TaskMap) {
        self.clone()
    }
}

/// The task with the given properties; of two with one name the later stays.
pub fn taskmap_with(properties: Vec<(String, String)>) -> (r: TaskMap)
    ensures
        r@ == pairs_map(properties@),
{
    let mut rv = TaskMap::new();
    let mut i: usize = 0;
    while i < properties.len()
        invariant
            i <= properties.len(),
            rv@ == pairs_map(properties@.subrange(0, i as int)),
        decreases properties.len() - i,
    {
        proof {
            let longer = properties@.subrange(0, i + 1);
            assert(longer.drop_last() =~= properties@.subrange(0, i as int));
            assert(longer.last() == properties@[i as int]);
        }
        rv.insert(properties[i].0.clone(), properties[i].1.clone());
        i = i + 1;
    }
    assert(properties@.subrange(0, i as int) =~= properties@);
    rv
}

} // verus!
