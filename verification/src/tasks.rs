//! The table of tasks that a replica holds in memory: each task's properties under the
//! task's identifier, no identifier twice.

use crate::ids::Uuid;
use crate::taskmap::TaskMap;
use crate::viewmap::{
    distinct_keys, has_key, lemma_pairs_map_at, lemma_pairs_map_dom, pairs_map, ViewMap,
};
use vstd::prelude::*;

verus! {

/// What a table of tasks holds: the properties of each task, by the task's identifier.
pub type TasksView = Map<Uuid, Map<Seq<char>, Seq<char>>>;

/// `list` names every task of `tasks` once, each with its properties, in some order.
pub open spec fn enumerates(list: Seq<(Uuid, TaskMap)>, tasks: TasksView) -> bool {
    &&& forall|i: int, j: int|
        0 <= i < j < list.len() ==> (#[trigger] list[i]).0 != (#[trigger] list[j]).0
    &&& forall|i: int|
        0 <= i < list.len() ==> tasks.contains_key((#[trigger] list[i]).0) && tasks[list[i].0]
            == list[i].1@
    &&& forall|uuid: Uuid|
        tasks.contains_key(uuid) ==> exists|i: int|
            0 <= i < list.len() && (#[trigger] list[i]).0 == uuid
}

/// `list` names every identifier of `tasks` once, in some order.
pub open spec fn enumerates_uuids(list: Seq<Uuid>, tasks: TasksView) -> bool {
    &&& list.no_duplicates()
    &&& forall|uuid: Uuid| tasks.contains_key(uuid) <==> list.contains(uuid)
}

/// Rows with distinct identifiers enumerate the table that they build.
pub proof fn lemma_rows_enumerate(rows: Seq<(Uuid, TaskMap)>)
    requires
        distinct_keys(rows),
    ensures
        enumerates(rows, pairs_map(rows)),
{
    lemma_pairs_map_dom(rows);
    assert forall|i: int, j: int| 0 <= i < j < rows.len() implies (#[trigger] rows[i]).0 != (
    #[trigger] rows[j]).0 by {
        assert(rows[i].0@ != rows[j].0@);
    }
    assert forall|i: int| 0 <= i < rows.len() implies pairs_map(rows).contains_key(
        (#[trigger] rows[i]).0,
    ) && pairs_map(rows)[rows[i].0] == rows[i].1@ by {
        lemma_pairs_map_at(rows, i);
    }
    assert forall|uuid: Uuid| pairs_map(rows).contains_key(uuid) implies exists|i: int|
        0 <= i < rows.len() && (#[trigger] rows[i]).0 == uuid by {
        assert(pairs_map(rows).dom().contains(uuid));
        assert(has_key(rows, uuid));
        let i = choose|i: int| 0 <= i < rows.len() && (#[trigger] rows[i]).0@ == uuid;
        assert(rows[i].0 == uuid);
    }
}

/// The tasks of a replica, by identifier.
#[derive(Debug)]
pub struct TaskTable {
    tasks: ViewMap<Uuid, TaskMap>,
}

impl View for TaskTable {
    type V = TasksView;

    closed spec fn view(&self) -> TasksView {
        self.tasks@
    }
}

impl TaskTable {
    /// The table without any task.
    pub fn new() -> (r: TaskTable)
        ensures
            r@ == TasksView::empty(),
    {
        TaskTable { tasks: ViewMap::new() }
    }

    /// The task `uuid`, if the table has it.
    pub fn get(&self, uuid: Uuid) -> (r: Option<&TaskMap>)
        ensures
            r is Some <==> self@.contains_key(uuid),
            r matches Some(task) ==> task@ == self@[uuid],
    {
        self.tasks.get(&uuid)
    }

    /// Whether the table has the task `uuid`.
    pub fn contains(&self, uuid: Uuid) -> (r: bool)
        ensures
            r == self@.contains_key(uuid),
    {
        self.tasks.contains_key(&uuid)
    }

    /// Puts `task` under `uuid`, in place of any task that was there.
    pub fn insert(&mut self, uuid: Uuid, task: TaskMap)
        ensures
            final(self)@ == old(self)@.insert(uuid, task@),
    {
        self.tasks.insert(uuid, task);
    }

    /// Takes the task `uuid` out; true where the table had it.
    pub fn remove(&mut self, uuid: Uuid) -> (r: bool)
        ensures
            r == old(self)@.contains_key(uuid),
            final(self)@ == old(self)@.remove(uuid),
    {
        self.tasks.remove(&uuid)
    }

    /// Every task with its identifier, in no particular order.
    pub fn all(&self) -> (r: Vec<(Uuid, TaskMap)>)
        ensures
            enumerates(r@, self@),
    {
        let r = self.tasks.entries();
        proof {
            lemma_rows_enumerate(r@);
        }
        r
    }

    /// The identifier of every task, in no particular order.
    pub fn uuids(&self) -> (r: Vec<Uuid>)
        ensures
            enumerates_uuids(r@, self@),
    {
        let rows = self.tasks.entries();
        proof {
            lemma_rows_enumerate(rows@);
        }
        let mut out: Vec<Uuid> = Vec::new();
        let mut i: usize = 0;
        while i < rows.len()
            invariant
                i <= rows.len(),
                out@.len() == i,
                forall|j: int| 0 <= j < i ==> out@[j] == (#[trigger] rows@[j]).0,
            decreases rows.len() - i,
        {
            out.push(rows[i].0);
            i = i + 1;
        }
        proof {
            assert forall|a: int, b: int| 0 <= a < out@.len() && 0 <= b < out@.len() && a
                != b implies out@[a] != out@[b] by {
                if a < b {
                    assert(rows@[a].0 != rows@[b].0);
                } else {
                    assert(rows@[b].0 != rows@[a].0);
                }
            }
            assert forall|uuid: Uuid| self@.contains_key(uuid) <==> out@.contains(uuid) by {
                if self@.contains_key(uuid) {
                    let j = choose|j: int| 0 <= j < rows@.len() && (#[trigger] rows@[j]).0 == uuid;
                    assert(out@[j] == uuid);
                }
                if out@.contains(uuid) {
                    let j = choose|j: int| 0 <= j < out@.len() && out@[j] == uuid;
                    assert(rows@[j].0 == uuid);
                }
            }
        }
        out
    }
}

impl Clone for TaskTable {
    fn clone(&self) -> (r: TaskTable)
        ensures
            r@ == self@,
    {
        TaskTable { tasks: self.tasks.clone() }
    }
}

} // verus!
