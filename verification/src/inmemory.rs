//! The store held in memory. A transaction works on a copy of the replica, which it makes
//! at its first write; `commit` puts the copy in the replica's place, and a transaction
//! that is dropped leaves the replica as it was. A transaction borrows its store for as
//! long as it lives, so a store never has two.

use crate::errors::StorageError;
use crate::ids::{Uuid, VersionId, DEFAULT_BASE_VERSION};
use crate::operation::{copy_log, Operation};
use crate::replica::{ReplicaView, TxnView};
use crate::taskmap::TaskMap;
use crate::tasks::{enumerates, enumerates_uuids, TaskTable};
use crate::views::views;
use crate::working_set::{is_working_set, WorkingSet};
use vstd::prelude::*;

verus! {

/// The four collections of a replica, in memory.
#[derive(Debug)]
pub struct Data {
    tasks: TaskTable,
    base_version: VersionId,
    operations: Vec<Operation>,
    working_set: WorkingSet,
}

impl View for Data {
    type V = ReplicaView;

    closed spec fn view(&self) -> ReplicaView {
        ReplicaView {
            tasks: self.tasks@,
            base_version: self.base_version,
            operations: views(self.operations@),
            working_set: self.working_set@,
        }
    }
}

impl Data {
    /// The collections of a replica that nothing was written to.
    pub fn new() -> (r: Data)
        ensures
            r@ == ReplicaView::fresh(),
    {
        let r = Data {
            tasks: TaskTable::new(),
            base_version: DEFAULT_BASE_VERSION,
            operations: Vec::new(),
            working_set: WorkingSet::new(),
        };
        assert(views(r.operations@) =~= Seq::empty());
        r
    }

    /// Does nothing at run time: states that the working set of data in memory has its
    /// reserved slot.
    fn note_well_formed(&self)
        ensures
            self@.well_formed(),
    {
        self.working_set.reserved_slot_is_empty();
    }
}

impl Clone for Data {
    fn clone(&self) -> (r: Data)
        ensures
            r@ == self@,
    {
        Data {
            tasks: self.tasks.clone(),
            base_version: self.base_version,
            operations: copy_log(&self.operations),
            working_set: self.working_set.clone(),
        }
    }
}

/// A store that lives as long as the process.
#[derive(Debug)]
pub struct InMemoryStorage {
    data: Data,
}

impl View for InMemoryStorage {
    type V = ReplicaView;

    closed spec fn view(&self) -> ReplicaView {
        self.data@
    }
}

/// What a transaction has done so far: whether it is still live, and the copy of the
/// replica that its writes went to, once it has written.
#[derive(Debug)]
pub struct TxnState {
    live: bool,
    new_data: Option<Data>,
}

impl TxnState {
    /// False once the transaction was committed.
    pub closed spec fn live(&self) -> bool {
        self.live
    }

    /// The replica with the transaction's writes, once it has written.
    pub closed spec fn written(&self) -> Option<ReplicaView> {
        match self.new_data {
            Some(data) => Some(data@),
            None => None,
        }
    }
}

/// A transaction on a store in memory.
#[derive(Debug)]
pub struct Txn<'t> {
    /// The store that the transaction was opened on.
    pub storage: &'t mut InMemoryStorage,
    /// What the transaction has done so far.
    pub state: TxnState,
}

impl<'t> View for Txn<'t> {
    type V = TxnView;

    open spec fn view(&self) -> TxnView {
        TxnView {
            live: self.state.live(),
            committed: self.storage@,
            working: match self.state.written() {
                Some(working) => working,
                None => self.storage@,
            },
        }
    }
}

impl InMemoryStorage {
    /// A store that nothing was written to.
    pub fn new() -> (r: InMemoryStorage)
        ensures
            r@ == ReplicaView::fresh(),
    {
        InMemoryStorage { data: Data::new() }
    }

    /// Opens a transaction. It sees the store as it is now; when it ends, the store is
    /// what the transaction has committed.
    pub fn txn<'a>(&'a mut self) -> (r: Result<Txn<'a>, StorageError>)
        ensures
            r matches Ok(txn) && txn@ == TxnView::begin(old(self)@) && txn@.well_formed()
                && *final(self) == *final(txn.storage),
    {
        self.data.note_well_formed();
        Ok(Txn { storage: self, state: TxnState { live: true, new_data: None } })
    }
}

impl<'t> Txn<'t> {
    /// Makes the copy that writes go to, unless it was made before.
    fn snapshot(&mut self)
        requires
            old(self).state.live(),
        ensures
            final(self)@ == old(self)@,
            final(self).state.written() is Some,
            final(self)@.well_formed(),
            *final(final(self).storage) == *final(old(self).storage),
    {
        if self.state.new_data.is_none() {
            let copy = self.storage.data.clone();
            self.state.new_data = Some(copy);
        }
        self.storage.data.note_well_formed();
        match &self.state.new_data {
            Some(data) => data.note_well_formed(),
            None => {},
        }
    }

    /// Does nothing at run time: states that both replicas of the transaction are well
    /// formed.
    fn note_well_formed(&self)
        ensures
            self@.well_formed(),
    {
        self.storage.data.note_well_formed();
        match &self.state.new_data {
            Some(data) => data.note_well_formed(),
            None => {},
        }
    }

    /// The task `uuid`, if the replica has it.
    pub fn get_task(&mut self, uuid: Uuid) -> (r: Result<Option<TaskMap>, StorageError>)
        ensures
            final(self)@ == old(self)@,
            *final(final(self).storage) == *final(old(self).storage),
            old(self)@.live ==> r is Ok,
            r matches Ok(Some(task)) ==> old(self)@.working.get_task(uuid) == Some(task@),
            r matches Ok(None) ==> old(self)@.working.get_task(uuid) is None,
            !old(self)@.live ==> r matches Err(StorageError::TransactionAlreadyCommitted),
    {
        if !self.state.live {
            return Err(StorageError::TransactionAlreadyCommitted);
        }
        let data = match &self.state.new_data {
            Some(data) => data,
            None => &self.storage.data,
        };
        match data.tasks.get(uuid) {
            Some(task) => Ok(Some(task.clone())),
            None => Ok(None),
        }
    }

    /// Creates the task `uuid` without properties, unless the replica has the task;
    /// true where it was created.
    pub fn create_task(&mut self, uuid: Uuid) -> (r: Result<bool, StorageError>)
        ensures
            final(self)@ == old(self)@.edited(old(self)@.working.create_task(uuid)),
            *final(final(self).storage) == *final(old(self).storage),
            r == old(self)@.answer(old(self)@.working.creates(uuid)),
    {
        if !self.state.live {
            return Err(StorageError::TransactionAlreadyCommitted);
        }
        self.snapshot();
        match &mut self.state.new_data {
            Some(data) => {
                if data.tasks.contains(uuid) {
                    Ok(false)
                } else {
                    data.tasks.insert(uuid, TaskMap::new());
                    Ok(true)
                }
            },
            None => Ok(false),
        }
    }

    /// Sets the task `uuid` to `task`, whether or not the replica had the task.
    pub fn set_task(&mut self, uuid: Uuid, task: TaskMap) -> (r: Result<(), StorageError>)
        ensures
            final(self)@ == old(self)@.edited(old(self)@.working.set_task(uuid, task@)),
            *final(final(self).storage) == *final(old(self).storage),
            r == old(self)@.answer(()),
    {
        if !self.state.live {
            return Err(StorageError::TransactionAlreadyCommitted);
        }
        self.snapshot();
        match &mut self.state.new_data {
            Some(data) => {
                data.tasks.insert(uuid, task);
            },
            None => {},
        }
        Ok(())
    }

    /// Deletes the task `uuid`; true where the replica had it.
    pub fn delete_task(&mut self, uuid: Uuid) -> (r: Result<bool, StorageError>)
        ensures
            final(self)@ == old(self)@.edited(old(self)@.working.delete_task(uuid)),
            *final(final(self).storage) == *final(old(self).storage),
            r == old(self)@.answer(old(self)@.working.deletes(uuid)),
    {
        if !self.state.live {
            return Err(StorageError::TransactionAlreadyCommitted);
        }
        self.snapshot();
        match &mut self.state.new_data {
            Some(data) => {
                let had = data.tasks.remove(uuid);
                Ok(had)
            },
            None => Ok(false),
        }
    }

    /// Every task with its identifier, in no particular order.
    pub fn all_tasks(&mut self) -> (r: Result<Vec<(Uuid, TaskMap)>, StorageError>)
        ensures
            final(self)@ == old(self)@,
            *final(final(self).storage) == *final(old(self).storage),
            old(self)@.live ==> r is Ok,
            r matches Ok(list) ==> enumerates(list@, old(self)@.working.tasks),
            !old(self)@.live ==> r matches Err(StorageError::TransactionAlreadyCommitted),
    {
        if !self.state.live {
            return Err(StorageError::TransactionAlreadyCommitted);
        }
        let data = match &self.state.new_data {
            Some(data) => data,
            None => &self.storage.data,
        };
        Ok(data.tasks.all())
    }

    /// The identifier of every task, in no particular order.
    pub fn all_task_uuids(&mut self) -> (r: Result<Vec<Uuid>, StorageError>)
        ensures
            final(self)@ == old(self)@,
            *final(final(self).storage) == *final(old(self).storage),
            old(self)@.live ==> r is Ok,
            r matches Ok(list) ==> enumerates_uuids(list@, old(self)@.working.tasks),
            !old(self)@.live ==> r matches Err(StorageError::TransactionAlreadyCommitted),
    {
        if !self.state.live {
            return Err(StorageError::TransactionAlreadyCommitted);
        }
        let data = match &self.state.new_data {
            Some(data) => data,
            None => &self.storage.data,
        };
        Ok(data.tasks.uuids())
    }

    /// The base version; the all-zero identifier where none was set.
    pub fn base_version(&mut self) -> (r: Result<VersionId, StorageError>)
        ensures
            final(self)@ == old(self)@,
            *final(final(self).storage) == *final(old(self).storage),
            r == old(self)@.answer(old(self)@.working.base_version),
    {
        if !self.state.live {
            return Err(StorageError::TransactionAlreadyCommitted);
        }
        let data = match &self.state.new_data {
            Some(data) => data,
            None => &self.storage.data,
        };
        Ok(data.base_version)
    }

    /// Sets the base version.
    pub fn set_base_version(&mut self, version: VersionId) -> (r: Result<(), StorageError>)
        ensures
            final(self)@ == old(self)@.edited(old(self)@.working.set_base_version(version)),
            *final(final(self).storage) == *final(old(self).storage),
            r == old(self)@.answer(()),
    {
        if !self.state.live {
            return Err(StorageError::TransactionAlreadyCommitted);
        }
        self.snapshot();
        match &mut self.state.new_data {
            Some(data) => {
                data.base_version = version;
            },
            None => {},
        }
        Ok(())
    }

    /// The operation log, the oldest operation first.
    pub fn operations(&mut self) -> (r: Result<Vec<Operation>, StorageError>)
        ensures
            final(self)@ == old(self)@,
            *final(final(self).storage) == *final(old(self).storage),
            old(self)@.live ==> r is Ok,
            r matches Ok(log) ==> views(log@) == old(self)@.working.operations,
            !old(self)@.live ==> r matches Err(StorageError::TransactionAlreadyCommitted),
    {
        if !self.state.live {
            return Err(StorageError::TransactionAlreadyCommitted);
        }
        let data = match &self.state.new_data {
            Some(data) => data,
            None => &self.storage.data,
        };
        Ok(copy_log(&data.operations))
    }

    /// Adds `op` at the end of the operation log.
    pub fn add_operation(&mut self, op: Operation) -> (r: Result<(), StorageError>)
        ensures
            final(self)@ == old(self)@.edited(old(self)@.working.add_operation(op@)),
            *final(final(self).storage) == *final(old(self).storage),
            r == old(self)@.answer(()),
    {
        if !self.state.live {
            return Err(StorageError::TransactionAlreadyCommitted);
        }
        self.snapshot();
        match &mut self.state.new_data {
            Some(data) => {
                let ghost before = data.operations@;
                data.operations.push(op);
                assert(views(before.push(op)) =~= views(before).push(op@));
            },
            None => {},
        }
        Ok(())
    }

    /// Puts `ops` in the place of the operation log.
    pub fn set_operations(&mut self, ops: Vec<Operation>) -> (r: Result<(), StorageError>)
        ensures
            final(self)@ == old(self)@.edited(old(self)@.working.set_operations(views(ops@))),
            *final(final(self).storage) == *final(old(self).storage),
            r == old(self)@.answer(()),
    {
        if !self.state.live {
            return Err(StorageError::TransactionAlreadyCommitted);
        }
        self.snapshot();
        match &mut self.state.new_data {
            Some(data) => {
                data.operations = ops;
            },
            None => {},
        }
        Ok(())
    }

    /// The working set, from the reserved slot 0 on. Slot 0 is always empty.
    pub fn get_working_set(&mut self) -> (r: Result<Vec<Option<Uuid>>, StorageError>)
        ensures
            final(self)@ == old(self)@,
            *final(final(self).storage) == *final(old(self).storage),
            old(self)@.live ==> r is Ok,
            r matches Ok(slots) ==> slots@ == old(self)@.working.working_set && is_working_set(
                slots@,
            ),
            !old(self)@.live ==> r matches Err(StorageError::TransactionAlreadyCommitted),
    {
        if !self.state.live {
            return Err(StorageError::TransactionAlreadyCommitted);
        }
        let data = match &self.state.new_data {
            Some(data) => data,
            None => &self.storage.data,
        };
        Ok(data.working_set.slots())
    }

    /// Puts `uuid` in the lowest empty slot of the working set from 1 on, or in a new
    /// slot at the end where none is empty, and returns the slot.
    pub fn add_to_working_set(&mut self, uuid: Uuid) -> (r: Result<usize, StorageError>)
        ensures
            final(self)@ == old(self)@.edited(old(self)@.working.add_to_working_set(uuid)),
            *final(final(self).storage) == *final(old(self).storage),
            old(self)@.live ==> r is Ok,
            r matches Ok(slot) ==> slot == old(self)@.working.next_slot(),
            !old(self)@.live ==> r matches Err(StorageError::TransactionAlreadyCommitted),
            final(self)@.well_formed(),
    {
        self.note_well_formed();
        if !self.state.live {
            return Err(StorageError::TransactionAlreadyCommitted);
        }
        self.snapshot();
        let r = match &mut self.state.new_data {
            Some(data) => {
                let slot = data.working_set.add(uuid);
                Ok(slot)
            },
            None => Ok(0),
        };
        self.note_well_formed();
        r
    }

    /// Assigns slot `index` of the working set. Slot 0 is reserved: assigning it is a
    /// fault. A slot past the end lengthens the working set; an empty item never
    /// shortens it.
    pub fn set_working_set_item(&mut self, index: usize, uuid: Option<Uuid>) -> (r: Result<
        (),
        StorageError,
    >)
        ensures
            final(self)@ == old(self)@.edited(
                old(self)@.working.set_working_set_item(index as int, uuid),
            ),
            *final(final(self).storage) == *final(old(self).storage),
            !old(self)@.live ==> r matches Err(StorageError::TransactionAlreadyCommitted),
            old(self)@.live && index == 0 ==> r matches Err(StorageError::InvalidIndex),
            old(self)@.live && index >= 1 ==> r is Ok,
    {
        if !self.state.live {
            return Err(StorageError::TransactionAlreadyCommitted);
        }
        if index == 0 {
            return Err(StorageError::InvalidIndex);
        }
        self.snapshot();
        match &mut self.state.new_data {
            Some(data) => data.working_set.set_item(index, uuid),
            None => Ok(()),
        }
    }

    /// Empties the working set: it reads as the reserved slot alone.
    pub fn clear_working_set(&mut self) -> (r: Result<(), StorageError>)
        ensures
            final(self)@ == old(self)@.edited(old(self)@.working.clear_working_set()),
            *final(final(self).storage) == *final(old(self).storage),
            r == old(self)@.answer(()),
    {
        if !self.state.live {
            return Err(StorageError::TransactionAlreadyCommitted);
        }
        self.snapshot();
        match &mut self.state.new_data {
            Some(data) => {
                data.working_set.clear();
            },
            None => {},
        }
        Ok(())
    }

    /// Installs the writes of the transaction, all at once, and ends it: every later
    /// call, `commit` too, is a fault.
    pub fn commit(&mut self) -> (r: Result<(), StorageError>)
        ensures
            final(self)@ == old(self)@.commit(),
            *final(final(self).storage) == *final(old(self).storage),
            r == old(self)@.answer(()),
    {
        if !self.state.live {
            return Err(StorageError::TransactionAlreadyCommitted);
        }
        match self.state.new_data.take() {
            Some(data) => {
                self.storage.data = data;
            },
            None => {},
        }
        self.state.live = false;
        Ok(())
    }
}

} // verus!
