//! What a replica's store holds, and what each operation of a transaction does to it:
//! the contract that every backend of the store meets.

use crate::errors::StorageError;
use crate::ids::{Uuid, VersionId, DEFAULT_BASE_VERSION};
use crate::operation::OperationView;
use crate::tasks::TasksView;
use crate::working_set::{
    empty_working_set, free_slots, is_working_set, lemma_first_free_from,
    lemma_lowest_free_slot_is_least, lowest_free_slot, with_added, with_item,
};
use vstd::prelude::*;

verus! {

/// The four collections of a replica.
pub struct ReplicaView {
    /// The properties of each task, by the task's identifier.
    pub tasks: TasksView,
    /// The version of the task database that the replica last synced to.
    pub base_version: VersionId,
    /// The operation log, the oldest operation first.
    pub operations: Seq<OperationView>,
    /// The working set, from the reserved slot 0 on.
    pub working_set: Seq<Option<Uuid>>,
}

impl ReplicaView {
    /// A replica that nothing was written to.
    pub open spec fn fresh() -> ReplicaView {
        ReplicaView {
            tasks: Map::empty(),
            base_version: DEFAULT_BASE_VERSION,
            operations: Seq::empty(),
            working_set: empty_working_set(),
        }
    }

    /// The working set has its reserved slot, and that slot is empty.
    pub open spec fn well_formed(self) -> bool {
        is_working_set(self.working_set)
    }

    /// The task `uuid`, if the replica has it.
    pub open spec fn get_task(self, uuid: Uuid) -> Option<Map<Seq<char>, Seq<char>>> {
        if self.tasks.contains_key(uuid) {
            Some(self.tasks[uuid])
        } else {
            None
        }
    }

    /// Whether creating the task `uuid` adds it: it does where the replica lacks it.
    pub open spec fn creates(self, uuid: Uuid) -> bool {
        !self.tasks.contains_key(uuid)
    }

    /// The replica after the task `uuid` was created: a new task has no properties, a
    /// task that was there stays as it is.
    pub open spec fn create_task(self, uuid: Uuid) -> ReplicaView {
        if self.creates(uuid) {
            ReplicaView { tasks: self.tasks.insert(uuid, Map::empty()), ..self }
        } else {
            self
        }
    }

    /// The replica after the task `uuid` was set to `task`.
    pub open spec fn set_task(self, uuid: Uuid, task: Map<Seq<char>, Seq<char>>) -> ReplicaView {
        ReplicaView { tasks: self.tasks.insert(uuid, task), ..self }
    }

    /// Whether deleting the task `uuid` removes it: it does where the replica has it.
    pub open spec fn deletes(self, uuid: Uuid) -> bool {
        self.tasks.contains_key(uuid)
    }

    /// The replica after the task `uuid` was deleted.
    pub open spec fn delete_task(self, uuid: Uuid) -> ReplicaView {
        ReplicaView { tasks: self.tasks.remove(uuid), ..self }
    }

    /// The replica after its base version was set to `version`.
    pub open spec fn set_base_version(self, version: VersionId) -> ReplicaView {
        ReplicaView { base_version: version, ..self }
    }

    /// The replica after `op` was added at the end of the log.
    pub open spec fn add_operation(self, op: OperationView) -> ReplicaView {
        ReplicaView { operations: self.operations.push(op), ..self }
    }

    /// The replica after the log was replaced by `ops`.
    pub open spec fn set_operations(self, ops: Seq<OperationView>) -> ReplicaView {
        ReplicaView { operations: ops, ..self }
    }

    /// The slot that a task added to the working set takes.
    pub open spec fn next_slot(self) -> int {
        lowest_free_slot(self.working_set)
    }

    /// The replica after `uuid` was added to the working set.
    pub open spec fn add_to_working_set(self, uuid: Uuid) -> ReplicaView {
        ReplicaView { working_set: with_added(self.working_set, uuid), ..self }
    }

    /// The replica after slot `index` of the working set, not the reserved slot, was
    /// assigned `item`.
    pub open spec fn set_working_set_item(self, index: int, item: Option<Uuid>) -> ReplicaView {
        if index >= 1 {
            ReplicaView { working_set: with_item(self.working_set, index, item), ..self }
        } else {
            self
        }
    }

    /// The replica after its working set was cleared.
    pub open spec fn clear_working_set(self) -> ReplicaView {
        ReplicaView { working_set: empty_working_set(), ..self }
    }
}

/// A transaction: the replica as it was committed last, the replica as the transaction
/// has changed it, and whether the transaction is still live.
pub struct TxnView {
    /// False once the transaction was committed.
    pub live: bool,
    /// What a new transaction would see.
    pub committed: ReplicaView,
    /// What this transaction sees: the committed replica with its own writes.
    pub working: ReplicaView,
}

impl TxnView {
    /// A transaction that was just opened on `store`.
    pub open spec fn begin(store: ReplicaView) -> TxnView {
        TxnView { live: true, committed: store, working: store }
    }

    /// Both replicas are well formed.
    pub open spec fn well_formed(self) -> bool {
        self.committed.well_formed() && self.working.well_formed()
    }

    /// What a call returns that computes `value`: `value` while the transaction is live,
    /// a fault once it was committed.
    pub open spec fn answer<T>(self, value: T) -> Result<T, StorageError> {
        if self.live {
            Ok(value)
        } else {
            Err(StorageError::TransactionAlreadyCommitted)
        }
    }

    /// The transaction after a write that leaves `working`: a write to a committed
    /// transaction changes nothing.
    pub open spec fn edited(self, working: ReplicaView) -> TxnView {
        if self.live {
            TxnView { working, ..self }
        } else {
            self
        }
    }

    /// The transaction after `commit`: its writes are installed, and it is no longer live.
    pub open spec fn commit(self) -> TxnView {
        if self.live {
            TxnView { live: false, committed: self.working, working: self.working }
        } else {
            self
        }
    }

    /// The store that is left when the transaction is dropped.
    pub open spec fn dropped(self) -> ReplicaView {
        self.committed
    }
}

/// One write of a transaction.
pub enum Write {
    CreateTask { uuid: Uuid },
    SetTask { uuid: Uuid, task: Map<Seq<char>, Seq<char>> },
    DeleteTask { uuid: Uuid },
    SetBaseVersion { version: VersionId },
    AddOperation { op: OperationView },
    SetOperations { ops: Seq<OperationView> },
    AddToWorkingSet { uuid: Uuid },
    SetWorkingSetItem { index: nat, item: Option<Uuid> },
    ClearWorkingSet,
}

impl ReplicaView {
    /// The replica after one write.
    pub open spec fn write(self, w: Write) -> ReplicaView {
        match w {
            Write::CreateTask { uuid } => self.create_task(uuid),
            Write::SetTask { uuid, task } => self.set_task(uuid, task),
            Write::DeleteTask { uuid } => self.delete_task(uuid),
            Write::SetBaseVersion { version } => self.set_base_version(version),
            Write::AddOperation { op } => self.add_operation(op),
            Write::SetOperations { ops } => self.set_operations(ops),
            Write::AddToWorkingSet { uuid } => self.add_to_working_set(uuid),
            Write::SetWorkingSetItem { index, item } => self.set_working_set_item(
                index as int,
                item,
            ),
            Write::ClearWorkingSet => self.clear_working_set(),
        }
    }

    /// The replica after a run of writes, the first of `ws` first.
    pub open spec fn write_all(self, ws: Seq<Write>) -> ReplicaView
        decreases ws.len(),
    {
        if ws.len() == 0 {
            self
        } else {
            self.write_all(ws.drop_last()).write(ws.last())
        }
    }
}

impl TxnView {
    /// The transaction after a run of writes.
    pub open spec fn write_all(self, ws: Seq<Write>) -> TxnView
        decreases ws.len(),
    {
        if ws.len() == 0 {
            self
        } else {
            let before = self.write_all(ws.drop_last());
            before.edited(before.working.write(ws.last()))
        }
    }
}

/// Every write keeps a well-formed replica well formed: the reserved slot of the working
/// set stays, and stays empty.
pub proof fn lemma_write_keeps_well_formed(store: ReplicaView, w: Write)
    requires
        store.well_formed(),
    ensures
        store.write(w).well_formed(),
{
    lemma_first_free_from(store.working_set, 1);
}

/// A task that was set and committed is read back by the next transaction.
pub proof fn lemma_set_task_is_read_back(
    store: ReplicaView,
    uuid: Uuid,
    task: Map<Seq<char>, Seq<char>>,
)
    ensures
        ({
            let txn = TxnView::begin(store);
            let txn = txn.edited(txn.working.set_task(uuid, task)).commit();
            TxnView::begin(txn.dropped()).working.get_task(uuid) == Some(task)
        }),
{
}

/// Creating a task adds it exactly where the replica lacked it. Once the replica has
/// the task, creating it again adds nothing, and the task stays through every write
/// but its own deletion, which removes it.
pub proof fn lemma_create_task_once(store: ReplicaView, uuid: Uuid, w: Write)
    ensures
        store.creates(uuid) <==> !store.tasks.contains_key(uuid),
        store.create_task(uuid).tasks.contains_key(uuid),
        !store.create_task(uuid).creates(uuid),
        store.tasks.contains_key(uuid) && w != (Write::DeleteTask { uuid })
            ==> store.write(w).tasks.contains_key(uuid) && !store.write(w).creates(uuid),
        store.tasks.contains_key(uuid) ==> store.deletes(uuid) && store.delete_task(uuid).creates(
            uuid,
        ),
{
}

/// A task that the replica has stays through any run of writes that does not delete
/// it, so that creating it after the run adds nothing.
pub proof fn lemma_task_stays_until_deleted(store: ReplicaView, uuid: Uuid, ws: Seq<Write>)
    requires
        store.tasks.contains_key(uuid),
        forall|i: int| 0 <= i < ws.len() ==> ws[i] != (Write::DeleteTask { uuid }),
    ensures
        store.write_all(ws).tasks.contains_key(uuid),
        !store.write_all(ws).creates(uuid),
    decreases ws.len(),
{
    if ws.len() > 0 {
        lemma_task_stays_until_deleted(store, uuid, ws.drop_last());
        lemma_create_task_once(store.write_all(ws.drop_last()), uuid, ws.last());
    }
}

/// A transaction reads its own writes: a task that it has set is the task that it
/// gets, before any commit.
pub proof fn lemma_txn_reads_its_writes(
    store: ReplicaView,
    uuid: Uuid,
    task: Map<Seq<char>, Seq<char>>,
)
    ensures
        ({
            let txn = TxnView::begin(store);
            let txn = txn.edited(txn.working.set_task(uuid, task));
            txn.working.get_task(uuid) == Some(task) && txn.dropped() == store
        }),
{
}

/// Whatever a transaction writes, the store is as it was when the transaction is
/// dropped without a commit.
pub proof fn lemma_dropped_txn_leaves_no_trace(store: ReplicaView, ws: Seq<Write>)
    ensures
        TxnView::begin(store).write_all(ws).live,
        TxnView::begin(store).write_all(ws).dropped() == store,
    decreases ws.len(),
{
    if ws.len() > 0 {
        lemma_dropped_txn_leaves_no_trace(store, ws.drop_last());
    }
}

/// A transaction that is committed installs its writes, all of them and in their order.
pub proof fn lemma_committed_txn_installs_writes(store: ReplicaView, ws: Seq<Write>)
    ensures
        TxnView::begin(store).write_all(ws).commit().dropped() == store.write_all(ws),
        TxnView::begin(store).write_all(ws).working == store.write_all(ws),
    decreases ws.len(),
{
    if ws.len() > 0 {
        lemma_dropped_txn_leaves_no_trace(store, ws.drop_last());
        lemma_committed_txn_installs_writes(store, ws.drop_last());
    }
}

/// A log that was set and committed is read back, in the same order, by the next
/// transaction.
pub proof fn lemma_set_operations_is_read_back(store: ReplicaView, ops: Seq<OperationView>)
    ensures
        ({
            let txn = TxnView::begin(store);
            let txn = txn.edited(txn.working.set_operations(ops)).commit();
            TxnView::begin(txn.dropped()).working.operations == ops
        }),
{
}

/// Operations that are added after the log was set follow the log that was set.
pub proof fn lemma_add_operation_appends(
    store: ReplicaView,
    ops: Seq<OperationView>,
    op: OperationView,
)
    ensures
        store.set_operations(ops).add_operation(op).operations == ops.push(op),
        store.add_operation(op).operations.len() == store.operations.len() + 1,
        store.add_operation(op).operations.subrange(0, store.operations.len() as int)
            == store.operations,
{
    assert(store.add_operation(op).operations.subrange(0, store.operations.len() as int)
        =~= store.operations);
}

/// A task that is added to the working set takes the least of the free slots: the
/// lowest empty slot from 1 on, or the slot one past the end. The reserved slot stays
/// empty, and no other slot changes.
pub proof fn lemma_add_to_working_set_takes_lowest_free_slot(store: ReplicaView, uuid: Uuid)
    requires
        store.well_formed(),
    ensures
        free_slots(store.working_set).contains(store.next_slot()),
        forall|i: int| free_slots(store.working_set).contains(i) ==> store.next_slot() <= i,
        store.add_to_working_set(uuid).well_formed(),
        store.add_to_working_set(uuid).working_set[store.next_slot()] == Some(uuid),
        forall|i: int|
            0 <= i < store.working_set.len() && i != store.next_slot()
                ==> store.add_to_working_set(uuid).working_set[i] == store.working_set[i],
{
    lemma_lowest_free_slot_is_least(store.working_set);
    lemma_first_free_from(store.working_set, 1);
}

/// After the working set was cleared it reads as the reserved slot alone, and the next
/// task that is added takes slot 1.
pub proof fn lemma_clear_working_set_restarts(store: ReplicaView)
    ensures
        store.clear_working_set().working_set == empty_working_set(),
        store.clear_working_set().next_slot() == 1,
{
    reveal_with_fuel(crate::working_set::first_free_from, 2);
}

/// Setting the base version twice leaves what setting it once leaves, and the version
/// that was set is the one that is read.
pub proof fn lemma_set_base_version_idempotent(store: ReplicaView, version: VersionId)
    ensures
        store.set_base_version(version).set_base_version(version) == store.set_base_version(
            version,
        ),
        store.set_base_version(version).base_version == version,
        ReplicaView::fresh().base_version == DEFAULT_BASE_VERSION,
{
}

} // verus!
