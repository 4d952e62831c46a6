use taskchampion::errors::StorageError;
use taskchampion::tasks::TaskTable;
use taskchampion::viewmap::ViewMap;
use taskchampion::{taskmap_with, TaskMap};

#[test]
fn taskmap_insert_get_remove() {
    let mut task = TaskMap::new();
    assert!(task.is_empty());
    assert_eq!(task.len(), 0);
    assert_eq!(task.get("status"), None);
    task.insert("status".to_string(), "pending".to_string());
    task.insert("description".to_string(), "x".to_string());
    task.insert("status".to_string(), "completed".to_string());
    assert_eq!(task.len(), 2);
    assert!(!task.is_empty());
    assert_eq!(task.get("status"), Some(&"completed".to_string()));
    assert!(task.contains_key("description"));
    assert!(!task.contains_key("Description"));
    assert!(!task.remove("missing"));
    assert!(task.remove("status"));
    assert_eq!(task.get("status"), None);
    assert_eq!(
        task.entries(),
        vec![("description".to_string(), "x".to_string())]
    );
}

#[test]
fn taskmap_equality_ignores_order() {
    let a = taskmap_with(vec![
        ("a".to_string(), "1".to_string()),
        ("b".to_string(), "2".to_string()),
    ]);
    let b = taskmap_with(vec![
        ("b".to_string(), "0".to_string()),
        ("a".to_string(), "1".to_string()),
        ("b".to_string(), "2".to_string()),
    ]);
    assert_eq!(a, b);
    assert_eq!(a.clone(), a);
    assert_eq!(b.len(), 2);
    let c = taskmap_with(vec![("a".to_string(), "1".to_string())]);
    assert_ne!(a, c);
    assert_ne!(c, a);
    let d = taskmap_with(vec![
        ("a".to_string(), "1".to_string()),
        ("b".to_string(), "3".to_string()),
    ]);
    assert_ne!(a, d);
    assert_eq!(TaskMap::default(), TaskMap::new());
}

#[test]
fn task_table_holds_each_task_once() {
    let mut table = TaskTable::new();
    assert!(!table.contains(1));
    table.insert(1, TaskMap::new());
    table.insert(2, taskmap_with(vec![("k".to_string(), "v".to_string())]));
    table.insert(1, taskmap_with(vec![("k".to_string(), "w".to_string())]));
    assert_eq!(table.uuids(), vec![1, 2]);
    assert_eq!(
        table.get(1),
        Some(&taskmap_with(vec![("k".to_string(), "w".to_string())]))
    );
    assert_eq!(table.get(3), None);
    assert!(!table.remove(3));
    assert!(table.remove(1));
    assert!(!table.contains(1));
    let copy = table.clone();
    assert_eq!(
        copy.all(),
        vec![(2, taskmap_with(vec![("k".to_string(), "v".to_string())]))]
    );
}

#[test]
fn fault_messages() {
    assert_eq!(
        StorageError::TransactionAlreadyCommitted.message(),
        "transaction already committed"
    );
    assert_eq!(
        StorageError::Backend("Creating table: no such file".to_string()).message(),
        "backend fault: Creating table: no such file"
    );
    assert_eq!(
        StorageError::Encoding("row is no operation".to_string()).message(),
        "encoding fault: row is no operation"
    );
    assert_eq!(StorageError::Busy.message(), "another transaction is live");
    assert_eq!(
        StorageError::InvalidIndex.message(),
        "slot 0 of the working set is reserved"
    );
}

#[test]
fn view_map_keeps_each_key_once() {
    let mut map: ViewMap<u128, String> = ViewMap::new();
    assert_eq!(map.len(), 0);
    map.insert(2, "two".to_string());
    map.insert(1, "one".to_string());
    map.insert(2, "zwei".to_string());
    assert_eq!(map.len(), 2);
    assert_eq!(map.get(&2), Some(&"zwei".to_string()));
    assert_eq!(map.get(&3), None);
    assert!(map.contains_key(&1));
    assert_eq!(
        map.entries(),
        vec![(2, "zwei".to_string()), (1, "one".to_string())]
    );
    let mut other: ViewMap<u128, String> = ViewMap::new();
    other.insert(1, "one".to_string());
    assert!(map != other);
    assert!(other != map);
    other.insert(2, "zwei".to_string());
    assert!(map == other);
    assert!(map.says_the_same(&other));
    assert!(map.remove(&2));
    assert!(!map.remove(&2));
    assert!(map != other);
    assert!(map.clone() == map);
}
