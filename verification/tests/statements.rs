use taskchampion::sql::{SqlParam, SqlValue};
use taskchampion::sqlite::{plan_add_to_working_set, plan_set_working_set_item};
use taskchampion::statements;
use taskchampion::{Operation, StorageError};

fn uuid_blob(uuid: u128) -> SqlParam {
    SqlParam::Blob(uuid.to_be_bytes().to_vec())
}

#[test]
fn statements_for_tables() {
    let tables = statements::create_tables();
    let sql: Vec<&str> = tables.iter().map(|s| s.sql).collect();
    assert_eq!(
        sql,
        vec![
            "CREATE TABLE IF NOT EXISTS tasks (uuid STRING PRIMARY KEY, data STRING);",
            "CREATE TABLE IF NOT EXISTS sync_meta (key STRING PRIMARY KEY, value STRING);",
            "CREATE TABLE IF NOT EXISTS operations (id INTEGER PRIMARY KEY AUTOINCREMENT, data STRING);",
            "CREATE TABLE IF NOT EXISTS working_set (slot INTEGER PRIMARY KEY, uuid STRING);",
        ]
    );
    for table in tables {
        assert_eq!(table.params, vec![]);
        assert_eq!(table.context, "Creating table");
    }
}

#[test]
fn statements_for_tasks() {
    let uuid = 0x0102_0304_0506_0708_090a_0b0c_0d0e_0f10_u128;
    let s = statements::get_task(uuid);
    assert_eq!(s.sql, "SELECT data FROM tasks WHERE uuid = ? LIMIT 1");
    assert_eq!(s.params, vec![SqlParam::Blob((1..=16).collect())]);

    let s = statements::count_task(uuid);
    assert_eq!(s.sql, "SELECT count(uuid) FROM tasks WHERE uuid = ?");
    assert_eq!(s.params, vec![uuid_blob(uuid)]);

    let s = statements::insert_task(uuid, "{}".to_string());
    assert_eq!(s.sql, "INSERT INTO tasks (uuid, data) VALUES (?, ?)");
    assert_eq!(
        s.params,
        vec![uuid_blob(uuid), SqlParam::Text("{}".to_string())]
    );
    assert_eq!(s.context, "Create task query");

    let s = statements::replace_task(uuid, "{\"k\":\"v\"}".to_string());
    assert_eq!(
        s.sql,
        "INSERT OR REPLACE INTO tasks (uuid, data) VALUES (?, ?)"
    );
    assert_eq!(
        s.params,
        vec![uuid_blob(uuid), SqlParam::Text("{\"k\":\"v\"}".to_string())]
    );
    assert_eq!(s.context, "Update task query");

    let s = statements::delete_task(uuid);
    assert_eq!(s.sql, "DELETE FROM tasks WHERE uuid = ?");
    assert_eq!(s.params, vec![uuid_blob(uuid)]);
    assert_eq!(s.context, "Delete task query");

    let s = statements::all_tasks();
    assert_eq!(s.sql, "SELECT uuid, data FROM tasks");
    assert_eq!(s.params, vec![]);

    let s = statements::all_task_uuids();
    assert_eq!(s.sql, "SELECT uuid FROM tasks");
    assert_eq!(s.params, vec![]);
}

#[test]
fn statements_for_base_version() {
    let s = statements::get_base_version();
    assert_eq!(
        s.sql,
        "SELECT value FROM sync_meta WHERE key = 'base_version'"
    );
    assert_eq!(s.params, vec![]);

    let s = statements::replace_base_version(5);
    assert_eq!(
        s.sql,
        "INSERT OR REPLACE INTO sync_meta (key, value) VALUES (?, ?)"
    );
    assert_eq!(
        s.params,
        vec![SqlParam::Text("base_version".to_string()), uuid_blob(5)]
    );
    assert_eq!(s.context, "Set base version");
}

#[test]
fn statements_for_operations() {
    let s = statements::get_operations();
    assert_eq!(s.sql, "SELECT data FROM operations ORDER BY id ASC");
    assert_eq!(s.params, vec![]);

    let s = statements::insert_operation(&Operation::UndoPoint);
    assert_eq!(s.sql, "INSERT INTO operations (data) VALUES (?)");
    assert_eq!(s.params, vec![SqlParam::Blob(vec![4])]);

    let s = statements::insert_operation(&Operation::Create { uuid: 1 });
    let mut record = vec![1u8];
    record.extend(1u128.to_be_bytes());
    assert_eq!(s.params, vec![SqlParam::Blob(record)]);

    let (delete, restart) = statements::clear_operations();
    assert_eq!(delete.sql, "DELETE FROM operations");
    assert_eq!(delete.params, vec![]);
    assert_eq!(
        restart.sql,
        "DELETE FROM sqlite_sequence WHERE name = 'operations'"
    );
    assert_eq!(restart.params, vec![]);
}

#[test]
fn statements_for_working_set() {
    let s = statements::get_working_set();
    assert_eq!(
        s.sql,
        "SELECT slot, uuid FROM working_set ORDER BY slot ASC"
    );
    assert_eq!(s.params, vec![]);

    let s = statements::replace_slot(3, Some(9)).unwrap();
    assert_eq!(
        s.sql,
        "INSERT OR REPLACE INTO working_set (slot, uuid) VALUES (?, ?)"
    );
    assert_eq!(s.params, vec![SqlParam::Integer(3), uuid_blob(9)]);

    let s = statements::replace_slot(i64::MAX as usize, None).unwrap();
    assert_eq!(
        s.params,
        vec![SqlParam::Integer(i64::MAX), SqlParam::Null]
    );
    assert_eq!(statements::replace_slot(i64::MAX as usize + 1, None), None);
    assert_eq!(statements::replace_slot(usize::MAX, Some(1)), None);

    let s = statements::clear_working_set();
    assert_eq!(s.sql, "DELETE FROM working_set");
    assert_eq!(s.params, vec![]);
}

#[test]
fn plan_for_adding_to_the_working_set() {
    let rows = vec![
        vec![SqlValue::Integer(1), SqlValue::Blob(8u128.to_be_bytes().to_vec())],
        vec![SqlValue::Integer(2), SqlValue::Null],
        vec![SqlValue::Integer(3), SqlValue::Blob(9u128.to_be_bytes().to_vec())],
    ];
    let (slot, statement) = plan_add_to_working_set(&rows, 7).unwrap();
    assert_eq!(slot, 2);
    assert_eq!(statement, statements::replace_slot(2, Some(7)).unwrap());

    let (slot, statement) = plan_add_to_working_set(&rows[..1].to_vec(), 7).unwrap();
    assert_eq!(slot, 2);
    assert_eq!(statement.params, vec![SqlParam::Integer(2), uuid_blob(7)]);

    let (slot, _) = plan_add_to_working_set(&vec![], 7).unwrap();
    assert_eq!(slot, 1);

    let unordered = vec![rows[2].clone(), rows[0].clone()];
    assert!(matches!(
        plan_add_to_working_set(&unordered, 7),
        Err(StorageError::Encoding(_))
    ));
}

#[test]
fn plan_for_assigning_a_slot() {
    assert_eq!(
        plan_set_working_set_item(0, Some(1)),
        Err(StorageError::InvalidIndex)
    );
    assert_eq!(
        plan_set_working_set_item(0, None),
        Err(StorageError::InvalidIndex)
    );
    assert_eq!(
        plan_set_working_set_item(4, None),
        Ok(statements::replace_slot(4, None).unwrap())
    );
    assert!(matches!(
        plan_set_working_set_item(usize::MAX, None),
        Err(StorageError::Encoding(_))
    ));
}

#[test]
fn statements_say_what_is_attempted() {
    let contexts = vec![
        (statements::get_task(1).context, "Get task query"),
        (statements::count_task(1).context, "Create task query"),
        (statements::insert_task(1, "{}".to_string()).context, "Create task query"),
        (statements::replace_task(1, "{}".to_string()).context, "Update task query"),
        (statements::delete_task(1).context, "Delete task query"),
        (statements::all_tasks().context, "All tasks query"),
        (statements::all_task_uuids().context, "All task identifiers query"),
        (statements::get_base_version().context, "Get base version"),
        (statements::replace_base_version(1).context, "Set base version"),
        (statements::get_operations().context, "Get operations"),
        (statements::insert_operation(&Operation::UndoPoint).context, "Add operation"),
        (statements::clear_operations().0.context, "Clear all existing operations"),
        (statements::clear_operations().1.context, "Clear all existing operations"),
        (statements::get_working_set().context, "Get working set query"),
        (statements::replace_slot(1, None).unwrap().context, "Set working set item"),
        (statements::clear_working_set().context, "Clear working set"),
    ];
    for (context, expected) in contexts {
        assert_eq!(context, expected);
    }
    assert_eq!(statements::COMMIT, "COMMIT");
    assert_eq!(statements::OPENING_DATABASE, "Opening database");
    assert_eq!(statements::OPENING_TRANSACTION, "Opening transaction");
    assert_eq!(statements::COMMITTING_TRANSACTION, "Committing transaction");
    let with_task = statements::with_task("a", "b", 2, "{}".to_string());
    assert_eq!(with_task.context, "a");
    assert_eq!(with_task.sql, "b");
    assert_eq!(
        with_task.params,
        vec![uuid_blob(2), SqlParam::Text("{}".to_string())]
    );
}
