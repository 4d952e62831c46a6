use taskchampion::rows::{
    any_counted, operations_of_rows, slot_of_row, task_of_row, task_of_rows, tasks_of_rows,
    uuid_of_value, uuids_of_rows, version_of_rows, working_set_of_rows,
};
use taskchampion::sql::SqlValue;
use taskchampion::{taskmap_with, Operation, StorageError, TaskMap, DEFAULT_BASE_VERSION};

fn blob(uuid: u128) -> SqlValue {
    SqlValue::Blob(uuid.to_be_bytes().to_vec())
}

fn text(s: &str) -> SqlValue {
    SqlValue::Text(s.to_string())
}

fn is_encoding_fault<T: std::fmt::Debug>(r: Result<T, StorageError>) -> bool {
    matches!(r, Err(StorageError::Encoding(_)))
}

#[test]
fn rows_uuid_values() {
    assert_eq!(uuid_of_value(&blob(77)), Some(77));
    assert_eq!(uuid_of_value(&SqlValue::Blob(vec![0; 15])), None);
    assert_eq!(uuid_of_value(&SqlValue::Null), None);
    assert_eq!(uuid_of_value(&SqlValue::Integer(77)), None);
    assert_eq!(uuid_of_value(&text("77")), None);
    assert_eq!(uuid_of_value(&SqlValue::Real), None);
}

#[test]
fn rows_of_one_task() {
    assert_eq!(task_of_rows(&vec![]), Ok(None));
    assert_eq!(
        task_of_rows(&vec![vec![text("{\"k\":\"v\"}")]]),
        Ok(Some(taskmap_with(vec![(
            "k".to_string(),
            "v".to_string()
        )])))
    );
    assert_eq!(task_of_rows(&vec![vec![text("null")]]), Ok(None));
    assert_eq!(
        task_of_rows(&vec![vec![text("{}")], vec![text("garbage")]]),
        Ok(Some(TaskMap::new()))
    );
    assert!(is_encoding_fault(task_of_rows(&vec![vec![text("garbage")]])));
    assert!(is_encoding_fault(task_of_rows(&vec![vec![blob(1)]])));
    assert!(is_encoding_fault(task_of_rows(&vec![vec![]])));
    assert!(is_encoding_fault(task_of_rows(&vec![vec![
        text("{}"),
        text("{}")
    ]])));
}

#[test]
fn rows_of_a_count() {
    assert_eq!(any_counted(&vec![vec![SqlValue::Integer(0)]]), Ok(false));
    assert_eq!(any_counted(&vec![vec![SqlValue::Integer(1)]]), Ok(true));
    assert_eq!(any_counted(&vec![vec![SqlValue::Integer(-1)]]), Ok(false));
    assert!(is_encoding_fault(any_counted(&vec![])));
    assert!(is_encoding_fault(any_counted(&vec![vec![text("1")]])));
    assert!(is_encoding_fault(any_counted(&vec![
        vec![SqlValue::Integer(1)],
        vec![SqlValue::Integer(1)]
    ])));
}

#[test]
fn rows_of_all_tasks() {
    assert_eq!(tasks_of_rows(&vec![]), Ok(vec![]));
    assert_eq!(
        task_of_row(&vec![blob(1), text("{}")]),
        Ok((1, TaskMap::new()))
    );
    assert_eq!(
        tasks_of_rows(&vec![
            vec![blob(2), text("{\"num\":\"2\"}")],
            vec![blob(1), text("{}")],
        ]),
        Ok(vec![
            (2, taskmap_with(vec![("num".to_string(), "2".to_string())])),
            (1, TaskMap::new()),
        ])
    );
    // one task that cannot be decoded fails the enumeration
    assert!(is_encoding_fault(tasks_of_rows(&vec![
        vec![blob(2), text("{\"num\":\"2\"}")],
        vec![blob(1), text("{\"num\":2}")],
    ])));
    assert!(is_encoding_fault(task_of_row(&vec![blob(1), text("null")])));
    assert!(is_encoding_fault(task_of_row(&vec![text("1"), text("{}")])));
    assert!(is_encoding_fault(task_of_row(&vec![blob(1), blob(2)])));
    assert!(is_encoding_fault(task_of_row(&vec![blob(1)])));
}

#[test]
fn rows_of_all_uuids() {
    assert_eq!(uuids_of_rows(&vec![]), Ok(vec![]));
    assert_eq!(
        uuids_of_rows(&vec![vec![blob(3)], vec![blob(1)]]),
        Ok(vec![3, 1])
    );
    assert!(is_encoding_fault(uuids_of_rows(&vec![
        vec![blob(3)],
        vec![SqlValue::Null]
    ])));
    assert!(is_encoding_fault(uuids_of_rows(&vec![vec![
        blob(3),
        blob(4)
    ]])));
}

#[test]
fn rows_of_the_base_version() {
    assert_eq!(version_of_rows(&vec![]), Ok(DEFAULT_BASE_VERSION));
    assert_eq!(version_of_rows(&vec![vec![blob(5)]]), Ok(5));
    assert!(is_encoding_fault(version_of_rows(&vec![vec![text("5")]])));
    assert!(is_encoding_fault(version_of_rows(&vec![vec![]])));
}

#[test]
fn rows_of_the_operation_log() {
    assert_eq!(operations_of_rows(&vec![]), Ok(vec![]));
    assert_eq!(
        operations_of_rows(&vec![
            vec![SqlValue::Blob(vec![4])],
            vec![SqlValue::Blob(
                [vec![2u8], 9u128.to_be_bytes().to_vec()].concat()
            )],
        ]),
        Ok(vec![Operation::UndoPoint, Operation::Delete { uuid: 9 }])
    );
    assert!(is_encoding_fault(operations_of_rows(&vec![
        vec![SqlValue::Blob(vec![4])],
        vec![SqlValue::Blob(vec![9])],
    ])));
    assert!(is_encoding_fault(operations_of_rows(&vec![vec![text(
        "UndoPoint"
    )]])));
}

#[test]
fn rows_of_the_working_set() {
    assert_eq!(
        slot_of_row(&vec![SqlValue::Integer(3), blob(8)]),
        Some((3, Some(8)))
    );
    assert_eq!(
        slot_of_row(&vec![SqlValue::Integer(3), SqlValue::Null]),
        Some((3, None))
    );
    assert_eq!(slot_of_row(&vec![SqlValue::Integer(0), blob(8)]), None);
    assert_eq!(slot_of_row(&vec![SqlValue::Integer(-3), blob(8)]), None);
    assert_eq!(slot_of_row(&vec![text("3"), blob(8)]), None);
    assert_eq!(slot_of_row(&vec![SqlValue::Integer(3), text("8")]), None);
    assert_eq!(slot_of_row(&vec![SqlValue::Integer(3)]), None);

    assert_eq!(working_set_of_rows(&vec![]).unwrap().slots(), vec![None]);
    let ws = working_set_of_rows(&vec![
        vec![SqlValue::Integer(1), blob(8)],
        vec![SqlValue::Integer(3), SqlValue::Null],
        vec![SqlValue::Integer(4), blob(9)],
    ])
    .unwrap();
    assert_eq!(ws.slots(), vec![None, Some(8), None, None, Some(9)]);
    assert!(is_encoding_fault(working_set_of_rows(&vec![
        vec![SqlValue::Integer(2), blob(8)],
        vec![SqlValue::Integer(1), blob(9)],
    ])));
    assert!(is_encoding_fault(working_set_of_rows(&vec![vec![
        SqlValue::Integer(0),
        blob(8)
    ]])));
}
