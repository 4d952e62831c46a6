//! Key/value pairs of a task as they are handed to a host program: a pair, and a list
//! of pairs that the host frees when it is done with it. A freed list holds nothing.

use crate::views::views;
use vstd::prelude::*;

verus! {

/// TCKV contains a key/value pair that is part of a task.
///
/// Neither key nor value is ever missing. They remain owned by the TCKV and are
/// freed when it is freed with tc_kv_list_free.
#[derive(Debug)]
pub struct TCKV {
    pub key: String,
    pub value: String,
}

impl View for TCKV {
    type V = (Seq<char>, Seq<char>);

    open spec fn view(&self) -> (Seq<char>, Seq<char>) {
        (self.key@, self.value@)
    }
}

impl TCKV {
    /// Takes the pair apart: the key and the value.
    pub fn from_ctype(self) -> (r: (String, String))
        ensures
            r.0@ == self.key@,
            r.1@ == self.value@,
    {
        (self.key, self.value)
    }

    /// The pair of a key and a value.
    pub fn as_ctype(pair: (String, String)) -> (r: TCKV)
        ensures
            r@ == (pair.0@, pair.1@),
    {
        TCKV { key: pair.0, value: pair.1 }
    }
}

/// The parts of a list fit together: a list with items has as many as its length
/// says, and room for no fewer; a list without items has length and room 0.
pub open spec fn parts_fit(items: Option<Vec<TCKV>>, len: usize, cap: usize) -> bool {
    match items {
        Some(v) => v@.len() == len && len <= cap,
        None => len == 0 && cap == 0,
    }
}

/// TCKVList represents a list of key/value pairs.
///
/// The content of this struct must be treated as read-only.
#[derive(Debug)]
pub struct TCKVList {
    /// number of key/value pairs in items
    len: usize,
    /// total size of items (internal use only)
    _capacity: usize,
    /// the TCKVs. These remain owned by the TCKVList instance and are freed by
    /// tc_kv_list_free. A valid TCKVList always has them; a freed one has none.
    items: Option<Vec<TCKV>>,
}

impl View for TCKVList {
    type V = Option<Seq<(Seq<char>, Seq<char>)>>;

    closed spec fn view(&self) -> Option<Seq<(Seq<char>, Seq<char>)>> {
        match self.items {
            Some(v) => Some(views(v@)),
            None => None,
        }
    }
}

impl TCKVList {
    #[verifier::type_invariant]
    spec fn well_formed(&self) -> bool {
        parts_fit(self.items, self.len, self._capacity)
    }

    /// The number of pairs that the list says it has.
    pub closed spec fn spec_len(&self) -> usize {
        self.len
    }

    /// The room that the list says it has.
    pub closed spec fn spec_capacity(&self) -> usize {
        self._capacity
    }

    /// Puts a list together from its parts, which must fit together.
    pub fn from_raw_parts(items: Option<Vec<TCKV>>, len: usize, cap: usize) -> (r: TCKVList)
        requires
            parts_fit(items, len, cap),
        ensures
            r@ == (match items {
                Some(v) => Some(views(v@)),
                None => None,
            }),
            r.spec_len() == len,
            r.spec_capacity() == cap,
    {
        TCKVList { len, _capacity: cap, items }
    }

    /// Takes a list apart: its items, its length and its room. The parts fit together.
    pub fn into_raw_parts(self) -> (r: (Option<Vec<TCKV>>, usize, usize))
        ensures
            parts_fit(r.0, r.1, r.2),
            self@ == (match r.0 {
                Some(v) => Some(views(v@)),
                None => None,
            }),
            r.1 == self.spec_len(),
            r.2 == self.spec_capacity(),
    {
        proof {
            use_type_invariant(&self);
        }
        (self.items, self.len, self._capacity)
    }

    /// The valid list of the given pairs, with room for just them.
    pub fn return_val(items: Vec<TCKV>) -> (r: TCKVList)
        ensures
            r@ == Some(views(items@)),
            r.spec_len() == items@.len(),
            r.spec_capacity() == items@.len(),
    {
        let len = items.len();
        TCKVList { len, _capacity: len, items: Some(items) }
    }

    /// Whether the list has no items: it was freed.
    pub fn items_is_null(&self) -> (r: bool)
        ensures
            r == (self@ is None),
    {
        self.items.is_none()
    }

    /// The number of pairs: 0 for a list that was freed.
    pub fn len(&self) -> (r: usize)
        ensures
            r == self.spec_len(),
            self@ matches Some(pairs) ==> r == pairs.len(),
            self@ is None ==> r == 0,
    {
        proof {
            use_type_invariant(self);
        }
        self.len
    }

    /// The room of the list, never less than its length: 0 for a list that was
    /// freed.
    pub fn capacity(&self) -> (r: usize)
        ensures
            r == self.spec_capacity(),
            r >= self.spec_len(),
            self@ is None ==> r == 0,
    {
        proof {
            use_type_invariant(self);
        }
        self._capacity
    }
}

/// Free a TCKVList instance. The instance, and all TCKVs it contains, must not be used
/// after this call.
///
/// When this call returns, the list has no items, signalling an invalid TCKVList.
pub fn tc_kv_list_free(tckvs: &mut TCKVList)
    ensures
        final(tckvs)@ is None,
        final(tckvs).spec_len() == 0,
        final(tckvs).spec_capacity() == 0,
{
    *tckvs = TCKVList { len: 0, _capacity: 0, items: None };
}

} // verus!
