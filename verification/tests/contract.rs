use taskchampion::storage::{Storage, StorageTxn};
use taskchampion::{
    taskmap_with, InMemoryStorage, Operation, SqliteStorage, StorageError, DEFAULT_BASE_VERSION,
};
use tempfile::TempDir;

// One scenario, run on any store through the contract that every store meets.
fn scenario<S: Storage>(storage: &mut S) {
    {
        let mut txn = storage.txn().unwrap();
        assert_eq!(txn.base_version(), Ok(DEFAULT_BASE_VERSION));
        assert_eq!(txn.create_task(1), Ok(true));
        assert_eq!(txn.create_task(1), Ok(false));
        txn.set_task(2, taskmap_with(vec![("a".to_string(), "b".to_string())]))
            .unwrap();
        txn.add_operation(Operation::Create { uuid: 1 }).unwrap();
        assert_eq!(txn.add_to_working_set(2), Ok(1));
        txn.set_base_version(9).unwrap();
        txn.commit().unwrap();
        assert_eq!(
            txn.get_working_set(),
            Err(StorageError::TransactionAlreadyCommitted)
        );
    }
    {
        let mut txn = storage.txn().unwrap();
        assert_eq!(txn.delete_task(1), Ok(true));
        txn.clear_working_set().unwrap();
        txn.set_operations(vec![]).unwrap();
    }
    {
        let mut txn = storage.txn().unwrap();
        assert_eq!(txn.get_task(1).unwrap(), Some(taskmap_with(vec![])));
        assert_eq!(
            txn.get_task(2).unwrap(),
            Some(taskmap_with(vec![("a".to_string(), "b".to_string())]))
        );
        assert_eq!(txn.get_task(3).unwrap(), None);
        let mut uuids = txn.all_task_uuids().unwrap();
        uuids.sort();
        assert_eq!(uuids, vec![1, 2]);
        assert_eq!(txn.all_tasks().unwrap().len(), 2);
        assert_eq!(
            txn.operations().unwrap(),
            vec![Operation::Create { uuid: 1 }]
        );
        assert_eq!(txn.get_working_set().unwrap(), vec![None, Some(2)]);
        assert_eq!(txn.base_version(), Ok(9));
        assert_eq!(
            txn.set_working_set_item(0, None),
            Err(StorageError::InvalidIndex)
        );
        txn.set_working_set_item(3, Some(1)).unwrap();
        assert_eq!(
            txn.get_working_set().unwrap(),
            vec![None, Some(2), None, Some(1)]
        );
        assert_eq!(txn.add_to_working_set(5), Ok(2));
    }
}

#[test]
fn contract_holds_in_memory() {
    let mut storage = InMemoryStorage::new();
    scenario(&mut storage);
}

#[test]
fn contract_holds_on_disk() {
    let tmp_dir = TempDir::new().unwrap();
    let mut storage = SqliteStorage::new(&tmp_dir.path().to_path_buf()).unwrap();
    scenario(&mut storage);
}
