//! The contract of the store, which the store in memory and the store on disk both meet:
//! a store opens transactions, and a transaction reads and writes the four collections
//! of the replica until it is committed. A transaction is live from the moment it is
//! opened until `commit` returns; from then on every call reports that the transaction
//! was committed, and no call reports that of a live one.
//!
//! A backend that holds the replica itself says what the replica is, and the contract
//! then says what every call does to it and what it returns. A backend whose replica
//! lives in a database cannot say so; what it does is stated over its exchanges with the
//! database.

use crate::errors::StorageError;
use crate::ids::{Uuid, VersionId};
use crate::inmemory;
use crate::inmemory::InMemoryStorage;
use crate::json::task_view;
use crate::operation::Operation;
use crate::replica::{ReplicaView, TxnView};
use crate::sqlite;
use crate::sqlite::{reports, Exchange, SqliteStorage};
use crate::statements::OPENING_TRANSACTION;
use crate::taskmap::TaskMap;
use crate::tasks::{enumerates, enumerates_uuids};
use crate::views::views;
use crate::working_set::is_working_set;
use vstd::prelude::*;

verus! {

/// `r` is a value that says what `want` holds, or the fault that `want` is.
pub open spec fn told<T, V>(
    r: Result<T, StorageError>,
    want: Result<V, StorageError>,
    says: spec_fn(T) -> V,
) -> bool {
    match (r, want) {
        (Ok(value), Ok(wanted)) => says(value) == wanted,
        (Err(fault), Err(wanted)) => fault == wanted,
        _ => false,
    }
}

/// A transaction on a store.
pub trait StorageTxn {
    /// False once the transaction was committed.
    spec fn live(&self) -> bool;

    /// The transaction as the contract of the replica sees it, where the backend
    /// holds the replica itself.
    spec fn model(&self) -> Option<TxnView>;

    /// The model of a transaction is live exactly while the transaction is.
    proof fn lemma_model_is_live(&self)
        ensures
            self.model() matches Some(m) ==> m.live == self.live(),
    ;

    /// The task `uuid`, if the store has it.
    fn get_task(&mut self, uuid: Uuid) -> (r: Result<Option<TaskMap>, StorageError>)
        ensures
            final(self).live() == old(self).live(),
            r matches Err(StorageError::TransactionAlreadyCommitted) <==> !old(self).live(),
            old(self).model() matches Some(m) ==> {
                &&& final(self).model() == old(self).model()
                &&& told(r, m.answer(m.working.get_task(uuid)), |task: Option<TaskMap>| task_view(task))
            },
    ;

    /// Creates the task `uuid` without properties, unless the store has the task; true
    /// where it was created.
    fn create_task(&mut self, uuid: Uuid) -> (r: Result<bool, StorageError>)
        ensures
            final(self).live() == old(self).live(),
            r matches Err(StorageError::TransactionAlreadyCommitted) <==> !old(self).live(),
            old(self).model() matches Some(m) ==> {
                &&& final(self).model() == Some(m.edited(m.working.create_task(uuid)))
                &&& r == m.answer(m.working.creates(uuid))
            },
    ;

    /// Sets the task `uuid` to `task`, whether or not the store had the task.
    fn set_task(&mut self, uuid: Uuid, task: TaskMap) -> (r: Result<(), StorageError>)
        ensures
            final(self).live() == old(self).live(),
            r matches Err(StorageError::TransactionAlreadyCommitted) <==> !old(self).live(),
            old(self).model() matches Some(m) ==> {
                &&& final(self).model() == Some(m.edited(m.working.set_task(uuid, task@)))
                &&& r == m.answer(())
            },
    ;

    /// Deletes the task `uuid`; true where the store had it.
    fn delete_task(&mut self, uuid: Uuid) -> (r: Result<bool, StorageError>)
        ensures
            final(self).live() == old(self).live(),
            r matches Err(StorageError::TransactionAlreadyCommitted) <==> !old(self).live(),
            old(self).model() matches Some(m) ==> {
                &&& final(self).model() == Some(m.edited(m.working.delete_task(uuid)))
                &&& r == m.answer(m.working.deletes(uuid))
            },
    ;

    /// Every task with its identifier, in no particular order.
    fn all_tasks(&mut self) -> (r: Result<Vec<(Uuid, TaskMap)>, StorageError>)
        ensures
            final(self).live() == old(self).live(),
            r matches Err(StorageError::TransactionAlreadyCommitted) <==> !old(self).live(),
            old(self).model() matches Some(m) ==> {
                &&& final(self).model() == old(self).model()
                &&& m.live ==> (r matches Ok(list) && enumerates(list@, m.working.tasks))
            },
    ;

    /// The identifier of every task, in no particular order.
    fn all_task_uuids(&mut self) -> (r: Result<Vec<Uuid>, StorageError>)
        ensures
            final(self).live() == old(self).live(),
            r matches Err(StorageError::TransactionAlreadyCommitted) <==> !old(self).live(),
            old(self).model() matches Some(m) ==> {
                &&& final(self).model() == old(self).model()
                &&& m.live ==> (r matches Ok(list) && enumerates_uuids(list@, m.working.tasks))
            },
    ;

    /// The base version; the all-zero identifier where none was set.
    fn base_version(&mut self) -> (r: Result<VersionId, StorageError>)
        ensures
            final(self).live() == old(self).live(),
            r matches Err(StorageError::TransactionAlreadyCommitted) <==> !old(self).live(),
            old(self).model() matches Some(m) ==> {
                &&& final(self).model() == old(self).model()
                &&& r == m.answer(m.working.base_version)
            },
    ;

    /// Sets the base version.
    fn set_base_version(&mut self, version: VersionId) -> (r: Result<(), StorageError>)
        ensures
            final(self).live() == old(self).live(),
            r matches Err(StorageError::TransactionAlreadyCommitted) <==> !old(self).live(),
            old(self).model() matches Some(m) ==> {
                &&& final(self).model() == Some(m.edited(m.working.set_base_version(version)))
                &&& r == m.answer(())
            },
    ;

    /// The operation log, the oldest operation first.
    fn operations(&mut self) -> (r: Result<Vec<Operation>, StorageError>)
        ensures
            final(self).live() == old(self).live(),
            r matches Err(StorageError::TransactionAlreadyCommitted) <==> !old(self).live(),
            old(self).model() matches Some(m) ==> {
                &&& final(self).model() == old(self).model()
                &&& told(r, m.answer(m.working.operations), |log: Vec<Operation>| views(log@))
            },
    ;

    /// Adds `op` at the end of the operation log.
    fn add_operation(&mut self, op: Operation) -> (r: Result<(), StorageError>)
        ensures
            final(self).live() == old(self).live(),
            r matches Err(StorageError::TransactionAlreadyCommitted) <==> !old(self).live(),
            old(self).model() matches Some(m) ==> {
                &&& final(self).model() == Some(m.edited(m.working.add_operation(op@)))
                &&& r == m.answer(())
            },
    ;

    /// Puts `ops` in the place of the operation log.
    fn set_operations(&mut self, ops: Vec<Operation>) -> (r: Result<(), StorageError>)
        ensures
            final(self).live() == old(self).live(),
            r matches Err(StorageError::TransactionAlreadyCommitted) <==> !old(self).live(),
            old(self).model() matches Some(m) ==> {
                &&& final(self).model() == Some(m.edited(m.working.set_operations(views(ops@))))
                &&& r == m.answer(())
            },
    ;

    /// The working set, from the reserved slot 0 on. Slot 0 is always empty.
    fn get_working_set(&mut self) -> (r: Result<Vec<Option<Uuid>>, StorageError>)
        ensures
            final(self).live() == old(self).live(),
            r matches Err(StorageError::TransactionAlreadyCommitted) <==> !old(self).live(),
            r matches Ok(slots) ==> is_working_set(slots@),
            old(self).model() matches Some(m) ==> {
                &&& final(self).model() == old(self).model()
                &&& told(r, m.answer(m.working.working_set), |slots: Vec<Option<Uuid>>| slots@)
            },
    ;

    /// Puts `uuid` in the lowest empty slot of the working set from 1 on, or in a new
    /// slot at the end where none is empty, and returns the slot.
    fn add_to_working_set(&mut self, uuid: Uuid) -> (r: Result<usize, StorageError>)
        ensures
            final(self).live() == old(self).live(),
            r matches Err(StorageError::TransactionAlreadyCommitted) <==> !old(self).live(),
            r matches Ok(slot) ==> slot >= 1,
            old(self).model() matches Some(m) ==> {
                &&& final(self).model() == Some(m.edited(m.working.add_to_working_set(uuid)))
                &&& told(r, m.answer(m.working.next_slot()), |slot: usize| slot as int)
            },
    ;

    /// Assigns slot `index` of the working set. Slot 0 is reserved: assigning it is a
    /// fault, and changes nothing.
    fn set_working_set_item(&mut self, index: usize, uuid: Option<Uuid>) -> (r: Result<
        (),
        StorageError,
    >)
        ensures
            final(self).live() == old(self).live(),
            r matches Err(StorageError::TransactionAlreadyCommitted) <==> !old(self).live(),
            old(self).live() && index == 0 ==> r matches Err(StorageError::InvalidIndex),
            old(self).model() matches Some(m) ==> {
                &&& final(self).model() == Some(
                    m.edited(m.working.set_working_set_item(index as int, uuid)),
                )
                &&& m.live && index >= 1 ==> r is Ok
            },
    ;

    /// Empties the working set: it reads as the reserved slot alone.
    fn clear_working_set(&mut self) -> (r: Result<(), StorageError>)
        ensures
            final(self).live() == old(self).live(),
            r matches Err(StorageError::TransactionAlreadyCommitted) <==> !old(self).live(),
            old(self).model() matches Some(m) ==> {
                &&& final(self).model() == Some(m.edited(m.working.clear_working_set()))
                &&& r == m.answer(())
            },
    ;

    /// Installs the writes of the transaction, all at once, and ends it.
    fn commit(&mut self) -> (r: Result<(), StorageError>)
        ensures
            !final(self).live(),
            r matches Err(StorageError::TransactionAlreadyCommitted) <==> !old(self).live(),
            old(self).model() matches Some(m) ==> {
                &&& final(self).model() == Some(m.commit())
                &&& r == m.answer(())
            },
    ;
}

/// A store: the place that transactions are opened on. A transaction borrows its store
/// for as long as it lives, so a store has one transaction at a time.
pub trait Storage {
    /// The transactions of this store.
    type Txn<'a>: StorageTxn where Self: 'a;

    /// The replica, where the backend holds it itself.
    spec fn model(&self) -> Option<ReplicaView>;

    /// Opens a transaction, which is live and sees the replica as it is.
    fn txn<'a>(&'a mut self) -> (r: Result<Self::Txn<'a>, StorageError>)
        ensures
            r matches Ok(txn) ==> txn.live(),
            old(self).model() matches Some(store) ==> (r matches Ok(txn) && txn.model() == Some(
                TxnView::begin(store),
            )),
    ;
}

impl<'t> StorageTxn for inmemory::Txn<'t> {
    open spec fn live(&self) -> bool {
        self@.live
    }

    open spec fn model(&self) -> Option<TxnView> {
        Some(self@)
    }

    proof fn lemma_model_is_live(&self) {
    }

    fn get_task(&mut self, uuid: Uuid) -> (r: Result<Option<TaskMap>, StorageError>) {
        inmemory::Txn::get_task(self, uuid)
    }

    fn create_task(&mut self, uuid: Uuid) -> (r: Result<bool, StorageError>) {
        inmemory::Txn::create_task(self, uuid)
    }

    fn set_task(&mut self, uuid: Uuid, task: TaskMap) -> (r: Result<(), StorageError>) {
        inmemory::Txn::set_task(self, uuid, task)
    }

    fn delete_task(&mut self, uuid: Uuid) -> (r: Result<bool, StorageError>) {
        inmemory::Txn::delete_task(self, uuid)
    }

    fn all_tasks(&mut self) -> (r: Result<Vec<(Uuid, TaskMap)>, StorageError>) {
        inmemory::Txn::all_tasks(self)
    }

    fn all_task_uuids(&mut self) -> (r: Result<Vec<Uuid>, StorageError>) {
        inmemory::Txn::all_task_uuids(self)
    }

    fn base_version(&mut self) -> (r: Result<VersionId, StorageError>) {
        inmemory::Txn::base_version(self)
    }

    fn set_base_version(&mut self, version: VersionId) -> (r: Result<(), StorageError>) {
        inmemory::Txn::set_base_version(self, version)
    }

    fn operations(&mut self) -> (r: Result<Vec<Operation>, StorageError>) {
        inmemory::Txn::operations(self)
    }

    fn add_operation(&mut self, op: Operation) -> (r: Result<(), StorageError>) {
        inmemory::Txn::add_operation(self, op)
    }

    fn set_operations(&mut self, ops: Vec<Operation>) -> (r: Result<(), StorageError>) {
        inmemory::Txn::set_operations(self, ops)
    }

    fn get_working_set(&mut self) -> (r: Result<Vec<Option<Uuid>>, StorageError>) {
        inmemory::Txn::get_working_set(self)
    }

    fn add_to_working_set(&mut self, uuid: Uuid) -> (r: Result<usize, StorageError>) {
        inmemory::Txn::add_to_working_set(self, uuid)
    }

    fn set_working_set_item(&mut self, index: usize, uuid: Option<Uuid>) -> (r: Result<
        (),
        StorageError,
    >) {
        inmemory::Txn::set_working_set_item(self, index, uuid)
    }

    fn clear_working_set(&mut self) -> (r: Result<(), StorageError>) {
        inmemory::Txn::clear_working_set(self)
    }

    fn commit(&mut self) -> (r: Result<(), StorageError>) {
        inmemory::Txn::commit(self)
    }
}

impl Storage for InMemoryStorage {
    type Txn<'a> = inmemory::Txn<'a>;

    open spec fn model(&self) -> Option<ReplicaView> {
        Some(self@)
    }

    fn txn<'a>(&'a mut self) -> (r: Result<inmemory::Txn<'a>, StorageError>) {
        InMemoryStorage::txn(self)
    }
}

impl<'t> StorageTxn for sqlite::Txn<'t> {
    open spec fn live(&self) -> bool {
        self.is_live()
    }

    open spec fn model(&self) -> Option<TxnView> {
        None
    }

    proof fn lemma_model_is_live(&self) {
    }

    fn get_task(&mut self, uuid: Uuid) -> (r: Result<Option<TaskMap>, StorageError>) {
        sqlite::Txn::get_task(self, uuid)
    }

    fn create_task(&mut self, uuid: Uuid) -> (r: Result<bool, StorageError>) {
        sqlite::Txn::create_task(self, uuid)
    }

    fn set_task(&mut self, uuid: Uuid, task: TaskMap) -> (r: Result<(), StorageError>) {
        sqlite::Txn::set_task(self, uuid, task)
    }

    fn delete_task(&mut self, uuid: Uuid) -> (r: Result<bool, StorageError>) {
        sqlite::Txn::delete_task(self, uuid)
    }

    fn all_tasks(&mut self) -> (r: Result<Vec<(Uuid, TaskMap)>, StorageError>) {
        sqlite::Txn::all_tasks(self)
    }

    fn all_task_uuids(&mut self) -> (r: Result<Vec<Uuid>, StorageError>) {
        sqlite::Txn::all_task_uuids(self)
    }

    fn base_version(&mut self) -> (r: Result<VersionId, StorageError>) {
        sqlite::Txn::base_version(self)
    }

    fn set_base_version(&mut self, version: VersionId) -> (r: Result<(), StorageError>) {
        sqlite::Txn::set_base_version(self, version)
    }

    fn operations(&mut self) -> (r: Result<Vec<Operation>, StorageError>) {
        sqlite::Txn::operations(self)
    }

    fn add_operation(&mut self, op: Operation) -> (r: Result<(), StorageError>) {
        sqlite::Txn::add_operation(self, op)
    }

    fn set_operations(&mut self, ops: Vec<Operation>) -> (r: Result<(), StorageError>) {
        sqlite::Txn::set_operations(self, ops)
    }

    fn get_working_set(&mut self) -> (r: Result<Vec<Option<Uuid>>, StorageError>) {
        sqlite::Txn::get_working_set(self)
    }

    fn add_to_working_set(&mut self, uuid: Uuid) -> (r: Result<usize, StorageError>) {
        sqlite::Txn::add_to_working_set(self, uuid)
    }

    fn set_working_set_item(&mut self, index: usize, uuid: Option<Uuid>) -> (r: Result<
        (),
        StorageError,
    >) {
        sqlite::Txn::set_working_set_item(self, index, uuid)
    }

    fn clear_working_set(&mut self) -> (r: Result<(), StorageError>) {
        sqlite::Txn::clear_working_set(self)
    }

    fn commit(&mut self) -> (r: Result<(), StorageError>) {
        sqlite::Txn::commit(self)
    }
}

impl Storage for SqliteStorage {
    type Txn<'a> = sqlite::Txn<'a>;

    open spec fn model(&self) -> Option<ReplicaView> {
        None
    }

    fn txn<'a>(&'a mut self) -> (r: Result<sqlite::Txn<'a>, StorageError>)
        ensures
            r matches Ok(txn) ==> txn.exchanges() == Seq::<Exchange>::empty(),
            r matches Err(e) ==> reports(e, OPENING_TRANSACTION@),
    {
        SqliteStorage::txn(self)
    }
}

} // verus!
