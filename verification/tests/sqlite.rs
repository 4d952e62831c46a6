use taskchampion::{taskmap_with, Operation, SqliteStorage, StorageError, Uuid, DEFAULT_BASE_VERSION};
use rusqlite::types::Value;
use taskchampion::sqlite::fault_of;
use tempfile::TempDir;

fn new_uuid() -> Uuid {
    uuid::Uuid::new_v4().as_u128()
}

fn open(tmp_dir: &TempDir) -> SqliteStorage {
    SqliteStorage::new(&tmp_dir.path().to_path_buf()).unwrap()
}

#[test]
fn test_create() {
    let tmp_dir = TempDir::new().unwrap();
    let mut storage = open(&tmp_dir);
    let uuid = new_uuid();
    {
        let mut txn = storage.txn().unwrap();
        assert!(txn.create_task(uuid).unwrap());
        txn.commit().unwrap();
    }
    {
        let mut txn = storage.txn().unwrap();
        let task = txn.get_task(uuid).unwrap();
        assert_eq!(task, Some(taskmap_with(vec![])));
    }
}

#[test]
fn test_create_exists() {
    let tmp_dir = TempDir::new().unwrap();
    let mut storage = open(&tmp_dir);
    let uuid = new_uuid();
    {
        let mut txn = storage.txn().unwrap();
        assert!(txn.create_task(uuid).unwrap());
        txn.commit().unwrap();
    }
    {
        let mut txn = storage.txn().unwrap();
        assert!(!txn.create_task(uuid).unwrap());
        txn.commit().unwrap();
    }
}

#[test]
fn test_get_missing() {
    let tmp_dir = TempDir::new().unwrap();
    let mut storage = open(&tmp_dir);
    let uuid = new_uuid();
    {
        let mut txn = storage.txn().unwrap();
        let task = txn.get_task(uuid).unwrap();
        assert_eq!(task, None);
    }
}

#[test]
fn test_set_task() {
    let tmp_dir = TempDir::new().unwrap();
    let mut storage = open(&tmp_dir);
    let uuid = new_uuid();
    {
        let mut txn = storage.txn().unwrap();
        txn.set_task(uuid, taskmap_with(vec![("k".to_string(), "v".to_string())]))
            .unwrap();
        txn.commit().unwrap();
    }
    {
        let mut txn = storage.txn().unwrap();
        let task = txn.get_task(uuid).unwrap();
        assert_eq!(
            task,
            Some(taskmap_with(vec![("k".to_string(), "v".to_string())]))
        );
    }
}

#[test]
fn test_delete_task_missing() {
    let tmp_dir = TempDir::new().unwrap();
    let mut storage = open(&tmp_dir);
    let uuid = new_uuid();
    {
        let mut txn = storage.txn().unwrap();
        assert!(!txn.delete_task(uuid).unwrap());
    }
}

#[test]
fn test_delete_task_exists() {
    let tmp_dir = TempDir::new().unwrap();
    let mut storage = open(&tmp_dir);
    let uuid = new_uuid();
    {
        let mut txn = storage.txn().unwrap();
        assert!(txn.create_task(uuid).unwrap());
        txn.commit().unwrap();
    }
    {
        let mut txn = storage.txn().unwrap();
        assert!(txn.delete_task(uuid).unwrap());
    }
}

#[test]
fn test_all_tasks_empty() {
    let tmp_dir = TempDir::new().unwrap();
    let mut storage = open(&tmp_dir);
    {
        let mut txn = storage.txn().unwrap();
        let tasks = txn.all_tasks().unwrap();
        assert_eq!(tasks, vec![]);
    }
}

#[test]
fn test_all_tasks_and_uuids() {
    let tmp_dir = TempDir::new().unwrap();
    let mut storage = open(&tmp_dir);
    let uuid1 = new_uuid();
    let uuid2 = new_uuid();
    {
        let mut txn = storage.txn().unwrap();
        assert!(txn.create_task(uuid1.clone()).unwrap());
        txn.set_task(
            uuid1.clone(),
            taskmap_with(vec![("num".to_string(), "1".to_string())]),
        )
        .unwrap();
        assert!(txn.create_task(uuid2.clone()).unwrap());
        txn.set_task(
            uuid2.clone(),
            taskmap_with(vec![("num".to_string(), "2".to_string())]),
        )
        .unwrap();
        txn.commit().unwrap();
    }
    {
        let mut txn = storage.txn().unwrap();
        let mut tasks = txn.all_tasks().unwrap();

        // order is nondeterministic, so sort by uuid
        tasks.sort_by(|a, b| a.0.cmp(&b.0));

        let mut exp = vec![
            (
                uuid1.clone(),
                taskmap_with(vec![("num".to_string(), "1".to_string())]),
            ),
            (
                uuid2.clone(),
                taskmap_with(vec![("num".to_string(), "2".to_string())]),
            ),
        ];
        exp.sort_by(|a, b| a.0.cmp(&b.0));

        assert_eq!(tasks, exp);
    }
    {
        let mut txn = storage.txn().unwrap();
        let mut uuids = txn.all_task_uuids().unwrap();
        uuids.sort();

        let mut exp = vec![uuid1.clone(), uuid2.clone()];
        exp.sort();

        assert_eq!(uuids, exp);
    }
}

#[test]
fn test_base_version_default() {
    let tmp_dir = TempDir::new().unwrap();
    let mut storage = open(&tmp_dir);
    {
        let mut txn = storage.txn().unwrap();
        assert_eq!(txn.base_version().unwrap(), DEFAULT_BASE_VERSION);
    }
}

#[test]
fn test_base_version_setting() {
    let tmp_dir = TempDir::new().unwrap();
    let mut storage = open(&tmp_dir);
    let u = new_uuid();
    {
        let mut txn = storage.txn().unwrap();
        txn.set_base_version(u).unwrap();
        txn.commit().unwrap();
    }
    {
        let mut txn = storage.txn().unwrap();
        assert_eq!(txn.base_version().unwrap(), u);
    }
}

#[test]
fn test_operations() {
    let tmp_dir = TempDir::new().unwrap();
    let mut storage = open(&tmp_dir);
    let uuid1 = new_uuid();
    let uuid2 = new_uuid();
    let uuid3 = new_uuid();

    // create some operations
    {
        let mut txn = storage.txn().unwrap();
        txn.add_operation(Operation::Create { uuid: uuid1 }).unwrap();
        txn.add_operation(Operation::Create { uuid: uuid2 }).unwrap();
        txn.commit().unwrap();
    }

    // read them back
    {
        let mut txn = storage.txn().unwrap();
        let ops = txn.operations().unwrap();
        assert_eq!(
            ops,
            vec![
                Operation::Create { uuid: uuid1 },
                Operation::Create { uuid: uuid2 },
            ]
        );
    }

    // set them to a different bunch
    {
        let mut txn = storage.txn().unwrap();
        txn.set_operations(vec![
            Operation::Delete { uuid: uuid2 },
            Operation::Delete { uuid: uuid1 },
        ])
        .unwrap();
        txn.commit().unwrap();
    }

    // create some more operations (to test adding operations after clearing)
    {
        let mut txn = storage.txn().unwrap();
        txn.add_operation(Operation::Create { uuid: uuid3 }).unwrap();
        txn.add_operation(Operation::Delete { uuid: uuid3 }).unwrap();
        txn.commit().unwrap();
    }

    // read them back
    {
        let mut txn = storage.txn().unwrap();
        let ops = txn.operations().unwrap();
        assert_eq!(
            ops,
            vec![
                Operation::Delete { uuid: uuid2 },
                Operation::Delete { uuid: uuid1 },
                Operation::Create { uuid: uuid3 },
                Operation::Delete { uuid: uuid3 },
            ]
        );
    }
}

#[test]
fn get_working_set_empty() {
    let tmp_dir = TempDir::new().unwrap();
    let mut storage = open(&tmp_dir);

    {
        let mut txn = storage.txn().unwrap();
        let ws = txn.get_working_set().unwrap();
        assert_eq!(ws, vec![None]);
    }
}

#[test]
fn add_to_working_set() {
    let tmp_dir = TempDir::new().unwrap();
    let mut storage = open(&tmp_dir);
    let uuid1 = new_uuid();
    let uuid2 = new_uuid();

    {
        let mut txn = storage.txn().unwrap();
        txn.add_to_working_set(uuid1).unwrap();
        txn.add_to_working_set(uuid2).unwrap();
        txn.commit().unwrap();
    }

    {
        let mut txn = storage.txn().unwrap();
        let ws = txn.get_working_set().unwrap();
        assert_eq!(ws, vec![None, Some(uuid1), Some(uuid2)]);
    }
}

#[test]
fn clear_working_set() {
    let tmp_dir = TempDir::new().unwrap();
    let mut storage = open(&tmp_dir);
    let uuid1 = new_uuid();
    let uuid2 = new_uuid();

    {
        let mut txn = storage.txn().unwrap();
        txn.add_to_working_set(uuid1).unwrap();
        txn.add_to_working_set(uuid2).unwrap();
        txn.commit().unwrap();
    }

    {
        let mut txn = storage.txn().unwrap();
        txn.clear_working_set().unwrap();
        txn.add_to_working_set(uuid2).unwrap();
        txn.add_to_working_set(uuid1).unwrap();
        txn.commit().unwrap();
    }

    {
        let mut txn = storage.txn().unwrap();
        let ws = txn.get_working_set().unwrap();
        assert_eq!(ws, vec![None, Some(uuid2), Some(uuid1)]);
    }
}

#[test]
fn sqlite_commit_twice_is_a_fault() {
    let tmp_dir = TempDir::new().unwrap();
    let mut storage = open(&tmp_dir);
    let mut txn = storage.txn().unwrap();
    txn.commit().unwrap();
    assert_eq!(txn.commit(), Err(StorageError::TransactionAlreadyCommitted));
    assert_eq!(
        txn.get_task(1),
        Err(StorageError::TransactionAlreadyCommitted)
    );
    assert_eq!(
        txn.add_to_working_set(1),
        Err(StorageError::TransactionAlreadyCommitted)
    );
}

#[test]
fn sqlite_dropped_txn_is_rolled_back() {
    let tmp_dir = TempDir::new().unwrap();
    let mut storage = open(&tmp_dir);
    {
        let mut txn = storage.txn().unwrap();
        assert!(txn.create_task(7).unwrap());
        txn.set_base_version(9).unwrap();
        txn.add_to_working_set(7).unwrap();
        txn.add_operation(Operation::UndoPoint).unwrap();
        assert_eq!(txn.get_task(7).unwrap(), Some(taskmap_with(vec![])));
    }
    {
        let mut txn = storage.txn().unwrap();
        assert_eq!(txn.get_task(7).unwrap(), None);
        assert_eq!(txn.base_version().unwrap(), DEFAULT_BASE_VERSION);
        assert_eq!(txn.get_working_set().unwrap(), vec![None]);
        assert_eq!(txn.operations().unwrap(), vec![]);
    }
}

#[test]
fn sqlite_store_survives_reopening() {
    let tmp_dir = TempDir::new().unwrap();
    let update = Operation::Update {
        uuid: 3,
        property: "description".to_string(),
        old_value: None,
        value: Some("caf\u{e9} \"au lait\"".to_string()),
        timestamp: -5,
    };
    {
        let mut storage = open(&tmp_dir);
        let mut txn = storage.txn().unwrap();
        txn.set_task(
            3,
            taskmap_with(vec![("description".to_string(), "caf\u{e9}".to_string())]),
        )
        .unwrap();
        txn.add_operation(update.clone()).unwrap();
        txn.set_working_set_item(3, Some(3)).unwrap();
        txn.commit().unwrap();
    }
    {
        let mut storage = open(&tmp_dir);
        let mut txn = storage.txn().unwrap();
        assert_eq!(
            txn.get_task(3).unwrap(),
            Some(taskmap_with(vec![(
                "description".to_string(),
                "caf\u{e9}".to_string()
            )]))
        );
        assert_eq!(txn.operations().unwrap(), vec![update]);
        assert_eq!(
            txn.get_working_set().unwrap(),
            vec![None, None, None, Some(3)]
        );
    }
}

#[test]
fn sqlite_working_set_fills_lowest_gap() {
    let tmp_dir = TempDir::new().unwrap();
    let mut storage = open(&tmp_dir);
    let mut txn = storage.txn().unwrap();
    assert_eq!(txn.add_to_working_set(10).unwrap(), 1);
    assert_eq!(txn.add_to_working_set(20).unwrap(), 2);
    assert_eq!(txn.add_to_working_set(30).unwrap(), 3);
    txn.set_working_set_item(2, None).unwrap();
    assert_eq!(
        txn.get_working_set().unwrap(),
        vec![None, Some(10), None, Some(30)]
    );
    assert_eq!(txn.add_to_working_set(40).unwrap(), 2);
    assert_eq!(txn.add_to_working_set(50).unwrap(), 4);
    txn.set_working_set_item(4, None).unwrap();
    assert_eq!(
        txn.get_working_set().unwrap(),
        vec![None, Some(10), Some(40), Some(30), None]
    );
    assert_eq!(
        txn.set_working_set_item(0, Some(1)),
        Err(StorageError::InvalidIndex)
    );
}

#[test]
fn sqlite_missing_directory_is_a_backend_fault() {
    let tmp_dir = TempDir::new().unwrap();
    let missing = tmp_dir.path().join("no-such-directory");
    match SqliteStorage::new(&missing) {
        Err(StorageError::Backend(text)) => assert!(text.starts_with("Opening database: ")),
        Err(other) => panic!("unexpected fault {:?}", other),
        Ok(_) => panic!("a store was opened in a missing directory"),
    }
}

#[test]
fn sqlite_second_connection_is_busy() {
    let tmp_dir = TempDir::new().unwrap();
    let mut first = open(&tmp_dir);
    let mut second = open(&tmp_dir);
    let mut writer = first.txn().unwrap();
    writer.set_base_version(1).unwrap();
    let mut blocked = second.txn().unwrap();
    assert_eq!(blocked.set_base_version(2), Err(StorageError::Busy));
    drop(blocked);
    writer.commit().unwrap();
    let mut reader = second.txn().unwrap();
    assert_eq!(reader.base_version(), Ok(1));
}

#[test]
fn sqlite_set_base_version_twice_is_once() {
    let tmp_dir = TempDir::new().unwrap();
    let mut storage = open(&tmp_dir);
    {
        let mut txn = storage.txn().unwrap();
        txn.set_base_version(5).unwrap();
        txn.set_base_version(5).unwrap();
        txn.commit().unwrap();
    }
    let con = rusqlite::Connection::open(tmp_dir.path().join("taskchampion.sqlite3")).unwrap();
    let rows: i64 = con
        .query_row("SELECT count(*) FROM sync_meta", [], |r| r.get(0))
        .unwrap();
    assert_eq!(rows, 1);
    let mut txn = storage.txn().unwrap();
    assert_eq!(txn.base_version(), Ok(5));
}

#[test]
fn sqlite_task_that_cannot_be_decoded_fails_the_enumeration() {
    let tmp_dir = TempDir::new().unwrap();
    let mut storage = open(&tmp_dir);
    {
        let mut txn = storage.txn().unwrap();
        txn.set_task(1, taskmap_with(vec![("k".to_string(), "v".to_string())]))
            .unwrap();
        txn.commit().unwrap();
    }
    {
        let con =
            rusqlite::Connection::open(tmp_dir.path().join("taskchampion.sqlite3")).unwrap();
        con.execute(
            "INSERT INTO tasks (uuid, data) VALUES (?, ?)",
            rusqlite::params_from_iter(vec![
                Value::Blob(2u128.to_be_bytes().to_vec()),
                Value::Text("{\"k\": 5}".to_string()),
            ]),
        )
        .unwrap();
        con.execute(
            "INSERT INTO operations (data) VALUES (?)",
            rusqlite::params_from_iter(vec![Value::Blob(vec![9u8])]),
        )
        .unwrap();
        con.execute(
            "INSERT INTO working_set (slot, uuid) VALUES (?, ?)",
            rusqlite::params_from_iter(vec![
                Value::Integer(1),
                Value::Text("not an identifier".to_string()),
            ]),
        )
        .unwrap();
    }
    let mut txn = storage.txn().unwrap();
    assert_eq!(
        txn.get_task(1).unwrap(),
        Some(taskmap_with(vec![("k".to_string(), "v".to_string())]))
    );
    assert!(matches!(txn.get_task(2), Err(StorageError::Encoding(_))));
    assert!(matches!(txn.all_tasks(), Err(StorageError::Encoding(_))));
    assert_eq!(txn.all_task_uuids().unwrap().len(), 2);
    assert!(matches!(txn.operations(), Err(StorageError::Encoding(_))));
    assert!(matches!(
        txn.get_working_set(),
        Err(StorageError::Encoding(_))
    ));
    assert!(matches!(
        txn.add_to_working_set(3),
        Err(StorageError::Encoding(_))
    ));
}

#[test]
fn sqlite_reads_what_rusqlite_wrote_for_a_uuid() {
    let tmp_dir = TempDir::new().unwrap();
    let mut storage = open(&tmp_dir);
    let uuid = uuid::Uuid::new_v4();
    {
        let con =
            rusqlite::Connection::open(tmp_dir.path().join("taskchampion.sqlite3")).unwrap();
        con.execute(
            "INSERT INTO tasks (uuid, data) VALUES (?, ?)",
            rusqlite::params_from_iter(vec![
                Value::Blob(uuid.as_bytes().to_vec()),
                Value::Text("{\"status\":\"pending\"}".to_string()),
            ]),
        )
        .unwrap();
    }
    let mut txn = storage.txn().unwrap();
    assert_eq!(
        txn.get_task(uuid.as_u128()).unwrap(),
        Some(taskmap_with(vec![(
            "status".to_string(),
            "pending".to_string()
        )]))
    );
    assert_eq!(txn.all_task_uuids().unwrap(), vec![uuid.as_u128()]);
    assert_eq!(txn.create_task(uuid.as_u128()), Ok(false));
}

#[test]
fn sqlite_fault_for_what_the_error_says() {
    assert_eq!(
        fault_of("Creating table", true, "database is locked"),
        StorageError::Busy
    );
    assert_eq!(
        fault_of("Creating table", false, "disk full"),
        StorageError::Backend("Creating table: disk full".to_string())
    );
    assert_eq!(
        fault_of("", false, ""),
        StorageError::Backend(": ".to_string())
    );
}

#[test]
fn sqlite_fault_names_what_was_attempted() {
    let tmp_dir = TempDir::new().unwrap();
    let mut storage = open(&tmp_dir);
    {
        let con =
            rusqlite::Connection::open(tmp_dir.path().join("taskchampion.sqlite3")).unwrap();
        con.execute("DROP TABLE tasks", []).unwrap();
        con.execute("DROP TABLE working_set", []).unwrap();
    }
    let mut txn = storage.txn().unwrap();
    let faults = vec![
        (txn.get_task(1).unwrap_err(), "Get task query: "),
        (txn.create_task(1).unwrap_err(), "Create task query: "),
        (
            txn.set_task(1, taskmap_with(vec![])).unwrap_err(),
            "Update task query: ",
        ),
        (txn.delete_task(1).unwrap_err(), "Delete task query: "),
        (txn.all_tasks().unwrap_err(), "All tasks query: "),
        (txn.all_task_uuids().unwrap_err(), "All task identifiers query: "),
        (txn.get_working_set().unwrap_err(), "Get working set query: "),
        (txn.add_to_working_set(1).unwrap_err(), "Get working set query: "),
        (
            txn.set_working_set_item(1, None).unwrap_err(),
            "Set working set item: ",
        ),
        (txn.clear_working_set().unwrap_err(), "Clear working set: "),
    ];
    for (fault, context) in faults {
        match fault {
            StorageError::Backend(text) => {
                assert!(text.starts_with(context), "{:?} lacks {:?}", text, context)
            }
            other => panic!("unexpected fault {:?}", other),
        }
    }
    // the tables that are left still answer
    assert_eq!(txn.base_version(), Ok(DEFAULT_BASE_VERSION));
    assert_eq!(txn.operations(), Ok(vec![]));
}

#[test]
fn sqlite_file_that_is_no_database_fails_table_creation() {
    let tmp_dir = TempDir::new().unwrap();
    let mut file = tempfile::Builder::new()
        .prefix("taskchampion")
        .suffix(".sqlite3")
        .rand_bytes(0)
        .tempfile_in(tmp_dir.path())
        .unwrap();
    std::io::Write::write_all(
        &mut file,
        b"this is not a database, it is a text of some length",
    )
    .unwrap();
    std::io::Write::flush(&mut file).unwrap();
    assert!(tmp_dir.path().join("taskchampion.sqlite3").is_file());
    match SqliteStorage::new(&tmp_dir.path().to_path_buf()) {
        Err(StorageError::Backend(text)) => {
            assert!(text.starts_with("Creating table: "), "{:?}", text)
        }
        Err(other) => panic!("unexpected fault {:?}", other),
        Ok(_) => panic!("a store was opened on a file that is no database"),
    }
}

#[test]
fn sqlite_store_is_the_named_file_in_the_directory() {
    let tmp_dir = TempDir::new().unwrap();
    assert!(!tmp_dir.path().join("taskchampion.sqlite3").exists());
    {
        let mut storage = open(&tmp_dir);
        let mut txn = storage.txn().unwrap();
        assert_eq!(txn.all_tasks().unwrap(), vec![]);
        assert_eq!(txn.base_version(), Ok(DEFAULT_BASE_VERSION));
        assert_eq!(txn.operations().unwrap(), vec![]);
        assert_eq!(txn.get_working_set().unwrap(), vec![None]);
        txn.commit().unwrap();
    }
    assert!(tmp_dir.path().join("taskchampion.sqlite3").is_file());
    assert_eq!(taskchampion::sqlite::DATABASE_FILE, "taskchampion.sqlite3");
}

#[test]
fn sqlite_commit_installs_all_four_collections() {
    let tmp_dir = TempDir::new().unwrap();
    {
        let mut storage = open(&tmp_dir);
        let mut txn = storage.txn().unwrap();
        txn.set_task(1, taskmap_with(vec![("a".to_string(), "1".to_string())]))
            .unwrap();
        txn.set_task(1, taskmap_with(vec![("b".to_string(), "2".to_string())]))
            .unwrap();
        txn.set_base_version(4).unwrap();
        txn.add_operation(Operation::UndoPoint).unwrap();
        txn.add_to_working_set(1).unwrap();
        assert_eq!(txn.commit(), Ok(()));
    }
    let mut storage = open(&tmp_dir);
    let mut txn = storage.txn().unwrap();
    // the whole map was replaced, nothing merged
    assert_eq!(
        txn.get_task(1).unwrap(),
        Some(taskmap_with(vec![("b".to_string(), "2".to_string())]))
    );
    assert_eq!(txn.all_task_uuids().unwrap(), vec![1]);
    assert_eq!(txn.base_version(), Ok(4));
    assert_eq!(txn.operations().unwrap(), vec![Operation::UndoPoint]);
    assert_eq!(txn.get_working_set().unwrap(), vec![None, Some(1)]);
    assert_eq!(txn.delete_task(1), Ok(true));
    assert_eq!(txn.create_task(1), Ok(true));
    assert_eq!(txn.get_task(1).unwrap(), Some(taskmap_with(vec![])));
}
