//! What the rows of the database mean. A statement hands back rows of values; the
//! functions here turn them into tasks, identifiers, operations and slots, and refuse
//! rows that do not have the form in which the store writes them.

use crate::errors::StorageError;
use crate::ids::{
    lemma_uuid_bytes_round_trip, uuid_bytes, uuid_from_bytes, uuid_of_bytes, Uuid, VersionId,
    DEFAULT_BASE_VERSION,
};
use crate::json::{decode_task, encoded_task, task_of_json, task_view};
use crate::opcodec::{
    decode_operation, lemma_operation_round_trip, operation_bytes, operation_fits,
    operation_of_bytes,
};
use crate::operation::{Operation, OperationView};
use crate::sql::SqlValue;
use crate::taskmap::TaskMap;
use crate::views::views;
use crate::working_set::{rows_in_order, rows_working_set, WorkingSet};
use vstd::prelude::*;
use vstd::string::StringExecFns;

verus! {

/// `r` is what reading gives where the rows hold `want`: the value that says `want`
/// where the rows hold something, an encoding fault where they hold nothing.
pub open spec fn reads<T, V>(r: Result<T, StorageError>, want: Option<V>, says: spec_fn(T) -> V)
    -> bool {
    &&& r is Ok <==> want is Some
    &&& r matches Ok(value) ==> want == Some(says(value))
    &&& r matches Err(e) ==> e is Encoding
}

/// The identifier that a value holds: a blob of 16 bytes.
pub open spec fn value_uuid(value: SqlValue) -> Option<Uuid> {
    match value {
        SqlValue::Blob(bytes) => uuid_of_bytes(bytes@),
        _ => None,
    }
}

/// Reads the identifier that a value holds.
pub fn uuid_of_value(value: &SqlValue) -> (r: Option<Uuid>)
    ensures
        r == value_uuid(*value),
{
    match value {
        SqlValue::Blob(bytes) => uuid_from_bytes(bytes),
        _ => None,
    }
}

/// What the rows that were read for one task hold: nothing where the rows cannot be
/// read; else an absent task where there is no row, and what the text in the first
/// row reads as where there is one.
pub open spec fn rows_task(rows: Seq<Vec<SqlValue>>) -> Option<
    Option<Map<Seq<char>, Seq<char>>>,
> {
    if rows.len() == 0 {
        Some(None)
    } else if rows[0]@.len() == 1 {
        match rows[0]@[0] {
            SqlValue::Text(text) => task_of_json(text@),
            _ => None,
        }
    } else {
        None
    }
}

/// Reads the rows of the query for one task.
pub fn task_of_rows(rows: &Vec<Vec<SqlValue>>) -> (r: Result<Option<TaskMap>, StorageError>)
    ensures
        reads(r, rows_task(rows@), |task: Option<TaskMap>| task_view(task)),
{
    if rows.len() == 0 {
        return Ok(None);
    }
    if rows[0].len() != 1 {
        return Err(StorageError::Encoding(String::from_str("task row has no data")));
    }
    match &rows[0][0] {
        SqlValue::Text(text) => decode_task(text.as_str()),
        _ => Err(StorageError::Encoding(String::from_str("task data is not a text"))),
    }
}

/// Whether the rows of a counting query say that anything was counted: one row with
/// one whole number, which is greater than 0.
pub open spec fn rows_any(rows: Seq<Vec<SqlValue>>) -> Option<bool> {
    if rows.len() == 1 && rows[0]@.len() == 1 {
        match rows[0]@[0] {
            SqlValue::Integer(n) => Some(n > 0),
            _ => None,
        }
    } else {
        None
    }
}

/// Reads the rows of a counting query, and says whether anything was counted.
pub fn any_counted(rows: &Vec<Vec<SqlValue>>) -> (r: Result<bool, StorageError>)
    ensures
        reads(r, rows_any(rows@), |any: bool| any),
{
    if rows.len() == 1 && rows[0].len() == 1 {
        match &rows[0][0] {
            SqlValue::Integer(n) => Ok(*n > 0),
            _ => Err(StorageError::Encoding(String::from_str("count is not a number"))),
        }
    } else {
        Err(StorageError::Encoding(String::from_str("count has no row")))
    }
}

/// The task that a row of identifier and data holds.
pub open spec fn row_task(row: Seq<SqlValue>) -> Option<(Uuid, Map<Seq<char>, Seq<char>>)> {
    if row.len() == 2 && value_uuid(row[0]) is Some {
        match row[1] {
            SqlValue::Text(text) => match task_of_json(text@) {
                Some(Some(task)) => Some((value_uuid(row[0])->0, task)),
                _ => None,
            },
            _ => None,
        }
    } else {
        None
    }
}

/// Reads one row of identifier and data.
pub fn task_of_row(row: &Vec<SqlValue>) -> (r: Result<(Uuid, TaskMap), StorageError>)
    ensures
        reads(r, row_task(row@), |task: (Uuid, TaskMap)| task@),
{
    if row.len() != 2 {
        return Err(StorageError::Encoding(String::from_str("task row is not a pair")));
    }
    let uuid = match uuid_of_value(&row[0]) {
        Some(uuid) => uuid,
        None => {
            return Err(StorageError::Encoding(String::from_str("task has no identifier")));
        },
    };
    match &row[1] {
        SqlValue::Text(text) => match decode_task(text.as_str()) {
            Ok(Some(task)) => Ok((uuid, task)),
            Ok(None) => Err(StorageError::Encoding(String::from_str("task has no data"))),
            Err(e) => Err(e),
        },
        _ => Err(StorageError::Encoding(String::from_str("task data is not a text"))),
    }
}

/// The tasks that rows of identifier and data hold, row by row; nothing where a row
/// cannot be read.
pub open spec fn rows_tasks(rows: Seq<Vec<SqlValue>>) -> Option<
    Seq<(Uuid, Map<Seq<char>, Seq<char>>)>,
> {
    if forall|i: int| 0 <= i < rows.len() ==> row_task(#[trigger] rows[i]@) is Some {
        Some(Seq::new(rows.len(), |i: int| row_task(rows[i]@)->0))
    } else {
        None
    }
}

/// Reads the rows of every task, in the order of the rows. One row that cannot be
/// read fails the whole.
pub fn tasks_of_rows(rows: &Vec<Vec<SqlValue>>) -> (r: Result<
    Vec<(Uuid, TaskMap)>,
    StorageError,
>)
    ensures
        reads(r, rows_tasks(rows@), |tasks: Vec<(Uuid, TaskMap)>| views(tasks@)),
{
    let mut tasks: Vec<(Uuid, TaskMap)> = Vec::new();
    let mut i: usize = 0;
    while i < rows.len()
        invariant
            i <= rows.len(),
            tasks@.len() == i,
            forall|j: int| 0 <= j < i ==> row_task(#[trigger] rows@[j]@) == Some(tasks@[j]@),
        decreases rows.len() - i,
    {
        match task_of_row(&rows[i]) {
            Ok(task) => tasks.push(task),
            Err(e) => {
                assert(row_task(rows@[i as int]@) is None);
                return Err(e);
            },
        }
        i = i + 1;
    }
    assert(rows_tasks(rows@) matches Some(read) && read =~= views(tasks@));
    Ok(tasks)
}

/// The identifier that a row of one value holds.
pub open spec fn row_uuid(row: Seq<SqlValue>) -> Option<Uuid> {
    if row.len() == 1 {
        value_uuid(row[0])
    } else {
        None
    }
}

/// The identifiers that rows of one value hold, row by row; nothing where a row
/// cannot be read.
pub open spec fn rows_uuids(rows: Seq<Vec<SqlValue>>) -> Option<Seq<Uuid>> {
    if forall|i: int| 0 <= i < rows.len() ==> row_uuid(#[trigger] rows[i]@) is Some {
        Some(Seq::new(rows.len(), |i: int| row_uuid(rows[i]@)->0))
    } else {
        None
    }
}

/// Reads the rows of every identifier, in the order of the rows. One row that cannot
/// be read fails the whole.
pub fn uuids_of_rows(rows: &Vec<Vec<SqlValue>>) -> (r: Result<Vec<Uuid>, StorageError>)
    ensures
        reads(r, rows_uuids(rows@), |uuids: Vec<Uuid>| uuids@),
{
    let mut uuids: Vec<Uuid> = Vec::new();
    let mut i: usize = 0;
    while i < rows.len()
        invariant
            i <= rows.len(),
            uuids@.len() == i,
            forall|j: int| 0 <= j < i ==> row_uuid(#[trigger] rows@[j]@) == Some(uuids@[j]),
        decreases rows.len() - i,
    {
        let found = if rows[i].len() == 1 {
            uuid_of_value(&rows[i][0])
        } else {
            None
        };
        match found {
            Some(uuid) => uuids.push(uuid),
            None => {
                assert(row_uuid(rows@[i as int]@) is None);
                return Err(StorageError::Encoding(String::from_str("row has no identifier")));
            },
        }
        i = i + 1;
    }
    assert(rows_uuids(rows@) matches Some(read) && read =~= uuids@);
    Ok(uuids)
}

/// The base version that the rows of the sync metadata hold: the default where there
/// is no row, else the identifier in the first row.
pub open spec fn rows_version(rows: Seq<Vec<SqlValue>>) -> Option<VersionId> {
    if rows.len() == 0 {
        Some(DEFAULT_BASE_VERSION)
    } else {
        row_uuid(rows[0]@)
    }
}

/// Reads the rows of the query for the base version.
pub fn version_of_rows(rows: &Vec<Vec<SqlValue>>) -> (r: Result<VersionId, StorageError>)
    ensures
        reads(r, rows_version(rows@), |version: VersionId| version),
{
    if rows.len() == 0 {
        return Ok(DEFAULT_BASE_VERSION);
    }
    let found = if rows[0].len() == 1 {
        uuid_of_value(&rows[0][0])
    } else {
        None
    };
    match found {
        Some(version) => Ok(version),
        None => Err(StorageError::Encoding(String::from_str("base version is no identifier"))),
    }
}

/// The operation that a row of one value holds.
pub open spec fn row_operation(row: Seq<SqlValue>) -> Option<OperationView> {
    if row.len() == 1 {
        match row[0] {
            SqlValue::Blob(bytes) => operation_of_bytes(bytes@),
            _ => None,
        }
    } else {
        None
    }
}

/// The operations that rows of one value hold, row by row; nothing where a row cannot
/// be read.
pub open spec fn rows_operations(rows: Seq<Vec<SqlValue>>) -> Option<Seq<OperationView>> {
    if forall|i: int| 0 <= i < rows.len() ==> row_operation(#[trigger] rows[i]@) is Some {
        Some(Seq::new(rows.len(), |i: int| row_operation(rows[i]@)->0))
    } else {
        None
    }
}

/// Reads the rows of the operation log, in the order of the rows. One row that cannot
/// be read fails the whole.
pub fn operations_of_rows(rows: &Vec<Vec<SqlValue>>) -> (r: Result<Vec<Operation>, StorageError>)
    ensures
        reads(r, rows_operations(rows@), |log: Vec<Operation>| views(log@)),
{
    let mut log: Vec<Operation> = Vec::new();
    let mut i: usize = 0;
    while i < rows.len()
        invariant
            i <= rows.len(),
            log@.len() == i,
            forall|j: int| 0 <= j < i ==> row_operation(#[trigger] rows@[j]@) == Some(log@[j]@),
        decreases rows.len() - i,
    {
        let found = if rows[i].len() == 1 {
            match &rows[i][0] {
                SqlValue::Blob(bytes) => decode_operation(bytes),
                _ => None,
            }
        } else {
            None
        };
        match found {
            Some(op) => log.push(op),
            None => {
                assert(row_operation(rows@[i as int]@) is None);
                return Err(StorageError::Encoding(String::from_str("row is no operation")));
            },
        }
        i = i + 1;
    }
    assert(rows_operations(rows@) matches Some(read) && read =~= views(log@));
    Ok(log)
}

/// The slot and the task that a row of the working set holds: a whole number that is
/// a slot from 1 on, and an identifier or no value.
pub open spec fn row_slot(row: Seq<SqlValue>) -> Option<(usize, Option<Uuid>)> {
    if row.len() == 2 {
        match row[0] {
            SqlValue::Integer(slot) => if 1 <= slot <= usize::MAX {
                match row[1] {
                    SqlValue::Null => Some((slot as usize, None)),
                    other => match value_uuid(other) {
                        Some(uuid) => Some((slot as usize, Some(uuid))),
                        None => None,
                    },
                }
            } else {
                None
            },
            _ => None,
        }
    } else {
        None
    }
}

/// Reads one row of the working set.
pub fn slot_of_row(row: &Vec<SqlValue>) -> (r: Option<(usize, Option<Uuid>)>)
    ensures
        r == row_slot(row@),
{
    if row.len() != 2 {
        return None;
    }
    let slot: usize = match &row[0] {
        SqlValue::Integer(slot) => {
            if *slot >= 1 && *slot as u64 <= usize::MAX as u64 {
                *slot as usize
            } else {
                return None;
            }
        },
        _ => {
            return None;
        },
    };
    match &row[1] {
        SqlValue::Null => Some((slot, None)),
        other => match uuid_of_value(other) {
            Some(uuid) => Some((slot, Some(uuid))),
            None => None,
        },
    }
}

/// The slots and tasks that the rows of the working set hold, row by row; nothing
/// where a row cannot be read.
pub open spec fn rows_slots(rows: Seq<Vec<SqlValue>>) -> Option<Seq<(usize, Option<Uuid>)>> {
    if forall|i: int| 0 <= i < rows.len() ==> row_slot(#[trigger] rows[i]@) is Some {
        Some(Seq::new(rows.len(), |i: int| row_slot(rows[i]@)->0))
    } else {
        None
    }
}

/// The working set that the rows of the working set hold, which the query gives in
/// the order of their slots: each row's task in the row's slot, empty in the reserved
/// slot 0 and wherever no row names the slot. Nothing where a row cannot be read, or
/// where the rows are not in order.
pub open spec fn rows_stored_working_set(rows: Seq<Vec<SqlValue>>) -> Option<
    Seq<Option<Uuid>>,
> {
    match rows_slots(rows) {
        Some(slots) => if rows_in_order(slots) {
            Some(rows_working_set(slots))
        } else {
            None
        },
        None => None,
    }
}

/// Reads the rows of the working set.
pub fn working_set_of_rows(rows: &Vec<Vec<SqlValue>>) -> (r: Result<WorkingSet, StorageError>)
    ensures
        reads(r, rows_stored_working_set(rows@), |ws: WorkingSet| ws@),
{
    let mut slots: Vec<(usize, Option<Uuid>)> = Vec::new();
    let mut i: usize = 0;
    while i < rows.len()
        invariant
            i <= rows.len(),
            slots@.len() == i,
            forall|j: int| 0 <= j < i ==> row_slot(#[trigger] rows@[j]@) == Some(slots@[j]),
        decreases rows.len() - i,
    {
        match slot_of_row(&rows[i]) {
            Some(slot) => slots.push(slot),
            None => {
                assert(row_slot(rows@[i as int]@) is None);
                return Err(StorageError::Encoding(String::from_str("row is no slot")));
            },
        }
        i = i + 1;
    }
    assert(rows_slots(rows@) matches Some(read) && read =~= slots@);
    WorkingSet::from_rows(&slots)
}

/// A value that holds the bytes of an identifier reads as that identifier.
pub proof fn lemma_stored_uuid_is_read_back(uuid: Uuid, value: SqlValue)
    requires
        value matches SqlValue::Blob(bytes) && bytes@ == uuid_bytes(uuid),
    ensures
        value_uuid(value) == Some(uuid),
{
    lemma_uuid_bytes_round_trip(uuid);
}

/// A row that holds the stored form of a task reads as that task: what `set_task`
/// writes is what `get_task` reads.
pub proof fn lemma_stored_task_is_read_back(
    task: Map<Seq<char>, Seq<char>>,
    rows: Seq<Vec<SqlValue>>,
)
    requires
        rows.len() == 1,
        rows[0]@.len() == 1,
        rows[0]@[0] matches SqlValue::Text(text) && encoded_task(task) == Some(text@),
    ensures
        rows_task(rows) == Some(Some(task)),
{
}

/// A row that holds the stored form of an operation reads as that operation: what
/// `add_operation` writes is what `operations` reads.
pub proof fn lemma_stored_operation_is_read_back(op: OperationView, row: Seq<SqlValue>)
    requires
        operation_fits(op),
        row.len() == 1,
        row[0] matches SqlValue::Blob(bytes) && bytes@ == operation_bytes(op),
    ensures
        row_operation(row) == Some(op),
{
    lemma_operation_round_trip(op);
}

/// A row that holds a slot from 1 on and the bytes of an identifier, or no value,
/// reads as that slot and task: what `set_working_set_item` writes is what
/// `get_working_set` reads.
pub proof fn lemma_stored_slot_is_read_back(slot: usize, item: Option<Uuid>, row: Seq<SqlValue>)
    requires
        1 <= slot <= i64::MAX,
        row.len() == 2,
        row[0] == SqlValue::Integer(slot as i64),
        match item {
            Some(uuid) => row[1] matches SqlValue::Blob(bytes) && bytes@ == uuid_bytes(uuid),
            None => row[1] == SqlValue::Null,
        },
    ensures
        row_slot(row) == Some((slot, item)),
{
    if item is Some {
        lemma_uuid_bytes_round_trip(item->0);
    }
}

} // verus!
