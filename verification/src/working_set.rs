//! The working set: the numbered list of tasks that a person refers to by small
//! integers. Slot 0 is reserved and always empty; tasks stand in the slots from 1 on.

use crate::errors::StorageError;
use crate::ids::Uuid;
use vstd::prelude::*;
use vstd::string::StringExecFns;

verus! {

/// A sequence of slots is a working set when it has the reserved slot 0, and that slot is
/// empty.
pub open spec fn is_working_set(ws: Seq<Option<Uuid>>) -> bool {
    ws.len() >= 1 && ws[0] is None
}

/// The working set without any task: the reserved slot alone.
pub open spec fn empty_working_set() -> Seq<Option<Uuid>> {
    seq![None]
}

/// The slots that a new task may take: each empty slot from 1 on, and the slot one past
/// the end.
pub open spec fn free_slots(ws: Seq<Option<Uuid>>) -> Set<int> {
    Set::new(|i: int| 1 <= i <= ws.len() && (i == ws.len() || ws[i] is None))
}

/// The first empty slot at or after `from`; the length where there is none.
pub open spec fn first_free_from(ws: Seq<Option<Uuid>>, from: int) -> int
    decreases ws.len() - from,
{
    if from >= ws.len() {
        ws.len() as int
    } else if ws[from] is None {
        from
    } else {
        first_free_from(ws, from + 1)
    }
}

/// The slot that the next added task takes.
pub open spec fn lowest_free_slot(ws: Seq<Option<Uuid>>) -> int {
    first_free_from(ws, 1)
}

/// The working set after `uuid` was added to `ws`.
pub open spec fn with_added(ws: Seq<Option<Uuid>>, uuid: Uuid) -> Seq<Option<Uuid>> {
    let slot = lowest_free_slot(ws);
    if slot < ws.len() {
        ws.update(slot, Some(uuid))
    } else {
        ws.push(Some(uuid))
    }
}

/// The working set after slot `index` of `ws` was assigned `item`. A slot past the end
/// lengthens the working set, with empty slots between.
pub open spec fn with_item(ws: Seq<Option<Uuid>>, index: int, item: Option<Uuid>) -> Seq<
    Option<Uuid>,
> {
    if index < ws.len() {
        ws.update(index, item)
    } else {
        (ws + Seq::new((index - ws.len()) as nat, |i: int| None::<Uuid>)).push(item)
    }
}

/// The rows of a stored working set are in order: slots from 1 on, each greater than the
/// one before.
pub open spec fn rows_in_order(rows: Seq<(usize, Option<Uuid>)>) -> bool {
    &&& forall|i: int| 0 <= i < rows.len() ==> (#[trigger] rows[i]).0 >= 1
    &&& forall|i: int, j: int|
        0 <= i < j < rows.len() ==> (#[trigger] rows[i]).0 < (#[trigger] rows[j]).0
}

/// The working set that rows of slot and task build: each row assigns its slot.
pub open spec fn rows_working_set(rows: Seq<(usize, Option<Uuid>)>) -> Seq<Option<Uuid>>
    decreases rows.len(),
{
    if rows.len() == 0 {
        empty_working_set()
    } else {
        with_item(rows_working_set(rows.drop_last()), rows.last().0 as int, rows.last().1)
    }
}

/// The search for a free slot ends at a free slot at or after `from`, and passes over
/// occupied slots only.
pub proof fn lemma_first_free_from(ws: Seq<Option<Uuid>>, from: int)
    requires
        0 <= from <= ws.len(),
    ensures
        from <= first_free_from(ws, from) <= ws.len(),
        first_free_from(ws, from) < ws.len() ==> ws[first_free_from(ws, from)] is None,
        forall|j: int| from <= j < first_free_from(ws, from) ==> (#[trigger] ws[j]) is Some,
    decreases ws.len() - from,
{
    if from < ws.len() && ws[from] is Some {
        lemma_first_free_from(ws, from + 1);
    }
}

/// The slot that the next added task takes is the least of the free slots.
pub proof fn lemma_lowest_free_slot_is_least(ws: Seq<Option<Uuid>>)
    requires
        is_working_set(ws),
    ensures
        free_slots(ws).contains(lowest_free_slot(ws)),
        forall|j: int| free_slots(ws).contains(j) ==> lowest_free_slot(ws) <= j,
{
    lemma_first_free_from(ws, 1);
    assert forall|j: int| free_slots(ws).contains(j) implies lowest_free_slot(ws) <= j by {
        if j < lowest_free_slot(ws) {
            assert(ws[j] is Some);
        }
    }
}

/// Adding a task keeps the reserved slot empty, puts the task in the slot that was the
/// lowest free one, and leaves every other slot as it was.
pub proof fn lemma_with_added(ws: Seq<Option<Uuid>>, uuid: Uuid)
    requires
        is_working_set(ws),
    ensures
        is_working_set(with_added(ws, uuid)),
        with_added(ws, uuid)[lowest_free_slot(ws)] == Some(uuid),
        with_added(ws, uuid).len() == if lowest_free_slot(ws) < ws.len() {
            ws.len()
        } else {
            ws.len() + 1
        },
        forall|j: int|
            0 <= j < ws.len() && j != lowest_free_slot(ws) ==> with_added(ws, uuid)[j] == ws[j],
{
    lemma_first_free_from(ws, 1);
}

/// A prefix of rows in order is in order.
pub proof fn lemma_rows_prefix_in_order(rows: Seq<(usize, Option<Uuid>)>, n: int)
    requires
        rows_in_order(rows),
        0 <= n <= rows.len(),
    ensures
        rows_in_order(rows.subrange(0, n)),
{
    let head = rows.subrange(0, n);
    assert forall|i: int| 0 <= i < head.len() implies (#[trigger] head[i]).0 >= 1 by {
        assert(rows[i].0 >= 1);
    }
    assert forall|i: int, j: int| 0 <= i < j < head.len() implies (#[trigger] head[i]).0 < (
    #[trigger] head[j]).0 by {
        assert(rows[i].0 < rows[j].0);
    }
}

/// Rows in order build a working set that is one longer than the last slot and holds
/// each row's task in its slot.
pub proof fn lemma_rows_working_set(rows: Seq<(usize, Option<Uuid>)>)
    requires
        rows_in_order(rows),
    ensures
        is_working_set(rows_working_set(rows)),
        rows_working_set(rows).len() == if rows.len() == 0 {
            1
        } else {
            rows.last().0 + 1
        },
        forall|i: int|
            0 <= i < rows.len() ==> rows_working_set(rows)[(#[trigger] rows[i]).0 as int]
                == rows[i].1,
    decreases rows.len(),
{
    if rows.len() > 0 {
        let head = rows.drop_last();
        let last = rows.last();
        lemma_rows_prefix_in_order(rows, rows.len() - 1);
        assert(head =~= rows.subrange(0, rows.len() - 1));
        lemma_rows_working_set(head);
        let before = rows_working_set(head);
        let after = rows_working_set(rows);
        assert(rows[rows.len() - 1].0 >= 1);
        if head.len() > 0 {
            assert(head.last() == rows[rows.len() - 2]);
            assert(rows[rows.len() - 2].0 < rows[rows.len() - 1].0);
        }
        assert(last.0 >= before.len());
        assert(after.len() == last.0 + 1);
        assert(after[last.0 as int] == last.1);
        assert forall|i: int| 0 <= i < rows.len() implies after[(#[trigger] rows[i]).0 as int]
            == rows[i].1 by {
            if i < rows.len() - 1 {
                assert(head[i] == rows[i]);
                assert(rows[i].0 < rows[rows.len() - 1].0);
                assert(before[head[i].0 as int] == head[i].1);
                assert(rows[i].0 < before.len());
                assert(after[rows[i].0 as int] == before[rows[i].0 as int]);
            }
        }
    }
}

/// A slot that no row names is empty in the working set that the rows build.
pub proof fn lemma_rows_working_set_gap(rows: Seq<(usize, Option<Uuid>)>, slot: int)
    requires
        rows_in_order(rows),
        0 <= slot < rows_working_set(rows).len(),
        forall|i: int| 0 <= i < rows.len() ==> (#[trigger] rows[i]).0 != slot,
    ensures
        rows_working_set(rows)[slot] is None,
    decreases rows.len(),
{
    if rows.len() > 0 {
        let head = rows.drop_last();
        lemma_rows_prefix_in_order(rows, rows.len() - 1);
        assert(head =~= rows.subrange(0, rows.len() - 1));
        lemma_rows_working_set(head);
        lemma_rows_working_set(rows);
        let before = rows_working_set(head);
        assert(rows[rows.len() - 1].0 != slot);
        if slot < before.len() {
            assert forall|i: int| 0 <= i < head.len() implies (#[trigger] head[i]).0 != slot by {
                assert(rows[i].0 != slot);
            }
            lemma_rows_working_set_gap(head, slot);
        }
    }
}

/// The slots of the working set without any task.
fn reserved_slot() -> (r: Vec<Option<Uuid>>)
    ensures
        r@ == empty_working_set(),
{
    let mut slots: Vec<Option<Uuid>> = Vec::new();
    slots.push(None);
    assert(slots@ =~= empty_working_set());
    slots
}

/// The working set of a replica.
#[derive(Debug)]
pub struct WorkingSet {
    slots: Vec<Option<Uuid>>,
}

impl View for WorkingSet {
    type V = Seq<Option<Uuid>>;

    closed spec fn view(&self) -> Seq<Option<Uuid>> {
        self.slots@
    }
}

impl WorkingSet {
    #[verifier::type_invariant]
    spec fn well_formed(&self) -> bool {
        is_working_set(self.slots@)
    }

    /// The working set without any task.
    pub fn new() -> (r: WorkingSet)
        ensures
            r@ == empty_working_set(),
    {
        WorkingSet { slots: reserved_slot() }
    }

    /// Does nothing at run time: states that the working set has its reserved slot,
    /// and that the slot is empty.
    pub fn reserved_slot_is_empty(&self)
        ensures
            is_working_set(self@),
    {
        proof {
            use_type_invariant(self);
        }
    }

    /// The slots, from the reserved slot 0 on.
    pub fn slots(&self) -> (r: Vec<Option<Uuid>>)
        ensures
            r@ == self@,
            is_working_set(r@),
    {
        proof {
            use_type_invariant(self);
        }
        let mut out: Vec<Option<Uuid>> = Vec::new();
        let mut i: usize = 0;
        while i < self.slots.len()
            invariant
                i <= self.slots.len(),
                out@ == self.slots@.subrange(0, i as int),
            decreases self.slots.len() - i,
        {
            out.push(self.slots[i]);
            assert(out@ =~= self.slots@.subrange(0, i + 1));
            i = i + 1;
        }
        assert(out@ =~= self.slots@);
        out
    }

    /// The slot that the next added task takes: the lowest empty slot from 1 on, or the
    /// slot one past the end.
    pub fn next_slot(&self) -> (r: usize)
        ensures
            r == lowest_free_slot(self@),
            free_slots(self@).contains(r as int),
            forall|j: int| free_slots(self@).contains(j) ==> r <= j,
    {
        proof {
            use_type_invariant(self);
        }
        let mut i: usize = 1;
        while i < self.slots.len() && self.slots[i].is_some()
            invariant
                1 <= i <= self.slots.len(),
                first_free_from(self.slots@, i as int) == lowest_free_slot(self.slots@),
            decreases self.slots.len() - i,
        {
            i = i + 1;
        }
        proof {
            lemma_lowest_free_slot_is_least(self.slots@);
        }
        i
    }

    /// Puts `uuid` in the lowest free slot and returns that slot.
    pub fn add(&mut self, uuid: Uuid) -> (r: usize)
        ensures
            r == lowest_free_slot(old(self)@),
            final(self)@ == with_added(old(self)@, uuid),
    {
        proof {
            use_type_invariant(&*self);
            lemma_with_added(self.slots@, uuid);
        }
        let slot = self.next_slot();
        let mut slots: Vec<Option<Uuid>> = reserved_slot();
        std::mem::swap(&mut slots, &mut self.slots);
        if slot < slots.len() {
            slots.set(slot, Some(uuid));
        } else {
            slots.push(Some(uuid));
        }
        self.slots = slots;
        slot
    }

    /// Assigns slot `index`, which must not be the reserved slot 0. A slot past the end
    /// lengthens the working set; assigning an empty item never shortens it.
    pub fn set_item(&mut self, index: usize, item: Option<Uuid>) -> (r: Result<(), StorageError>)
        ensures
            index == 0 ==> r == Err::<(), StorageError>(StorageError::InvalidIndex)
                && final(self)@ == old(self)@,
            index >= 1 ==> r is Ok && final(self)@ == with_item(old(self)@, index as int, item),
    {
        proof {
            use_type_invariant(&*self);
        }
        if index == 0 {
            return Err(StorageError::InvalidIndex);
        }
        let mut slots: Vec<Option<Uuid>> = reserved_slot();
        std::mem::swap(&mut slots, &mut self.slots);
        let ghost before = slots@;
        if index < slots.len() {
            slots.set(index, item);
        } else {
            while slots.len() < index
                invariant
                    before.len() <= slots@.len() <= index,
                    slots@ == before + Seq::new(
                        (slots@.len() - before.len()) as nat,
                        |i: int| None::<Uuid>,
                    ),
                decreases index - slots.len(),
            {
                slots.push(None);
                assert(slots@ =~= before + Seq::new(
                    (slots@.len() - before.len()) as nat,
                    |i: int| None::<Uuid>,
                ));
            }
            slots.push(item);
        }
        assert(slots@[0] is None);
        self.slots = slots;
        Ok(())
    }

    /// Empties every slot: only the reserved slot is left.
    pub fn clear(&mut self)
        ensures
            final(self)@ == empty_working_set(),
    {
        let fresh = WorkingSet::new();
        *self = fresh;
    }

    /// Builds the working set from stored rows of slot and task. The rows must be in
    /// order of their slots, from slot 1 on, no slot twice.
    pub fn from_rows(rows: &Vec<(usize, Option<Uuid>)>) -> (r: Result<WorkingSet, StorageError>)
        ensures
            r is Ok <==> rows_in_order(rows@),
            r matches Ok(ws) ==> ws@ == rows_working_set(rows@),
            r matches Err(e) ==> e is Encoding,
    {
        let mut ws = WorkingSet::new();
        let mut i: usize = 0;
        while i < rows.len()
            invariant
                i <= rows.len(),
                rows_in_order(rows@.subrange(0, i as int)),
                ws@ == rows_working_set(rows@.subrange(0, i as int)),
            decreases rows.len() - i,
        {
            let slot: usize = rows[i].0;
            let in_order = slot >= 1 && (i == 0 || rows[i - 1].0 < slot);
            if !in_order {
                proof {
                    if rows_in_order(rows@) {
                        assert(rows@[i as int].0 >= 1);
                        if i > 0 {
                            assert(rows@[i - 1].0 < rows@[i as int].0);
                        }
                    }
                }
                return Err(
                    StorageError::Encoding(String::from_str("working set slots out of order")),
                );
            }
            proof {
                let shorter = rows@.subrange(0, i as int);
                let longer = rows@.subrange(0, i + 1);
                assert(longer.drop_last() =~= shorter);
                assert(longer.last() == rows@[i as int]);
                assert forall|k: int| 0 <= k < longer.len() implies (#[trigger] longer[k]).0
                    >= 1 by {
                    if k < i {
                        assert(shorter[k].0 >= 1);
                    }
                }
                assert forall|a: int, b: int| 0 <= a < b < longer.len() implies (
                #[trigger] longer[a]).0 < (#[trigger] longer[b]).0 by {
                    if b < i {
                        assert(shorter[a].0 < shorter[b].0);
                    } else if a < i - 1 {
                        assert(shorter[a].0 < shorter[i - 1].0);
                    } else {
                        assert(longer[a] == rows@[i - 1]);
                    }
                }
            }
            let _ = ws.set_item(slot, rows[i].1);
            i = i + 1;
        }
        assert(rows@.subrange(0, i as int) =~= rows@);
        Ok(ws)
    }
}

impl Clone for WorkingSet {
    fn clone(&self) -> (r: WorkingSet)
        ensures
            r@ == self@,
    {
        WorkingSet { slots: self.slots() }
    }
}

} // verus!
