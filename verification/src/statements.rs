//! The statements that the store on disk runs: for each, what is attempted with it, its
//! text, and the values that are bound to its parameters.

use crate::ids::{uuid_bytes, uuid_to_bytes, Uuid, VersionId};
use crate::opcodec::{encode_operation, operation_bytes, operation_fits};
use crate::operation::{Operation, OperationView};
use crate::sql::{SqlParam, SqlParamView};
use crate::views::views;
use vstd::prelude::*;
use vstd::string::StringExecFns;

verus! {

pub const CREATE_TASKS: &'static str =
    "CREATE TABLE IF NOT EXISTS tasks (uuid STRING PRIMARY KEY, data STRING);";

pub const CREATE_SYNC_META: &'static str =
    "CREATE TABLE IF NOT EXISTS sync_meta (key STRING PRIMARY KEY, value STRING);";

pub const CREATE_OPERATIONS: &'static str =
    "CREATE TABLE IF NOT EXISTS operations (id INTEGER PRIMARY KEY AUTOINCREMENT, data STRING);";

pub const CREATE_WORKING_SET: &'static str =
    "CREATE TABLE IF NOT EXISTS working_set (slot INTEGER PRIMARY KEY, uuid STRING);";

pub const GET_TASK: &'static str = "SELECT data FROM tasks WHERE uuid = ? LIMIT 1";

pub const COUNT_TASK: &'static str = "SELECT count(uuid) FROM tasks WHERE uuid = ?";

pub const INSERT_TASK: &'static str = "INSERT INTO tasks (uuid, data) VALUES (?, ?)";

pub const REPLACE_TASK: &'static str = "INSERT OR REPLACE INTO tasks (uuid, data) VALUES (?, ?)";

pub const DELETE_TASK: &'static str = "DELETE FROM tasks WHERE uuid = ?";

pub const ALL_TASKS: &'static str = "SELECT uuid, data FROM tasks";

pub const ALL_TASK_UUIDS: &'static str = "SELECT uuid FROM tasks";

pub const GET_BASE_VERSION: &'static str = "SELECT value FROM sync_meta WHERE key = 'base_version'";

pub const REPLACE_BASE_VERSION: &'static str =
    "INSERT OR REPLACE INTO sync_meta (key, value) VALUES (?, ?)";

/// The key of the base version in the sync metadata.
pub const BASE_VERSION_KEY: &'static str = "base_version";

pub const GET_OPERATIONS: &'static str = "SELECT data FROM operations ORDER BY id ASC";

pub const INSERT_OPERATION: &'static str = "INSERT INTO operations (data) VALUES (?)";

pub const DELETE_OPERATIONS: &'static str = "DELETE FROM operations";

pub const RESTART_OPERATION_IDS: &'static str =
    "DELETE FROM sqlite_sequence WHERE name = 'operations'";

pub const GET_WORKING_SET: &'static str = "SELECT slot, uuid FROM working_set ORDER BY slot ASC";

pub const REPLACE_SLOT: &'static str =
    "INSERT OR REPLACE INTO working_set (slot, uuid) VALUES (?, ?)";

pub const DELETE_WORKING_SET: &'static str = "DELETE FROM working_set";

/// The statement that `rusqlite` sends to commit a transaction.
pub const COMMIT: &'static str = "COMMIT";

/// What is attempted when the database file is opened. The other constants of this
/// kind say what is attempted with a statement; a fault of the database carries one.
pub const OPENING_DATABASE: &'static str = "Opening database";

pub const OPENING_TRANSACTION: &'static str = "Opening transaction";

pub const COMMITTING_TRANSACTION: &'static str = "Committing transaction";

pub const CREATING_TABLE: &'static str = "Creating table";

pub const GETTING_TASK: &'static str = "Get task query";

pub const CREATING_TASK: &'static str = "Create task query";

pub const UPDATING_TASK: &'static str = "Update task query";

pub const DELETING_TASK: &'static str = "Delete task query";

pub const GETTING_TASKS: &'static str = "All tasks query";

pub const GETTING_TASK_UUIDS: &'static str = "All task identifiers query";

pub const GETTING_BASE_VERSION: &'static str = "Get base version";

pub const SETTING_BASE_VERSION: &'static str = "Set base version";

pub const GETTING_OPERATIONS: &'static str = "Get operations";

pub const ADDING_OPERATION: &'static str = "Add operation";

pub const CLEARING_OPERATIONS: &'static str = "Clear all existing operations";

pub const GETTING_WORKING_SET: &'static str = "Get working set query";

pub const SETTING_WORKING_SET_ITEM: &'static str = "Set working set item";

pub const CLEARING_WORKING_SET: &'static str = "Clear working set";

/// A statement to run: what it is for, its text, and the values for its parameters,
/// in the order of the `?` in the text.
#[derive(Debug, Clone, PartialEq, Eq)]
pub struct Statement {
    /// What is attempted, for the text of a fault.
    pub context: &'static str,
    /// The text of the statement.
    pub sql: &'static str,
    /// The values to bind.
    pub params: Vec<SqlParam>,
}

/// What a statement says: what is attempted, its text, and what it binds.
pub struct StatementView {
    pub context: &'static str,
    pub sql: &'static str,
    pub params: Seq<SqlParamView>,
}

impl View for Statement {
    type V = StatementView;

    open spec fn view(&self) -> StatementView {
        StatementView { context: self.context, sql: self.sql, params: views(self.params@) }
    }
}

/// The statement `sql` without parameters.
pub open spec fn binds_nothing(context: &'static str, sql: &'static str) -> StatementView {
    StatementView { context, sql, params: Seq::empty() }
}

/// The statement `sql` with the bytes of an identifier bound.
pub open spec fn binds_uuid(context: &'static str, sql: &'static str, uuid: Uuid)
    -> StatementView {
    StatementView { context, sql, params: seq![SqlParamView::Blob(uuid_bytes(uuid))] }
}

/// The statement `sql` with the bytes of an identifier and the stored form of a task
/// bound.
pub open spec fn binds_task(
    context: &'static str,
    sql: &'static str,
    uuid: Uuid,
    data: Seq<char>,
) -> StatementView {
    StatementView {
        context,
        sql,
        params: seq![SqlParamView::Blob(uuid_bytes(uuid)), SqlParamView::Text(data)],
    }
}

/// The statement that creates one table unless it is there.
pub open spec fn table_creation(sql: &'static str) -> StatementView {
    binds_nothing(CREATING_TABLE, sql)
}

/// The statements that create the four tables, in the order in which they are sent.
pub open spec fn table_creations() -> Seq<StatementView> {
    seq![
        table_creation(CREATE_TASKS),
        table_creation(CREATE_SYNC_META),
        table_creation(CREATE_OPERATIONS),
        table_creation(CREATE_WORKING_SET),
    ]
}

/// The query for the data of the task `uuid`.
pub open spec fn task_query(uuid: Uuid) -> StatementView {
    binds_uuid(GETTING_TASK, GET_TASK, uuid)
}

/// The query that counts the rows of the task `uuid`.
pub open spec fn task_count(uuid: Uuid) -> StatementView {
    binds_uuid(CREATING_TASK, COUNT_TASK, uuid)
}

/// The statement that inserts the task `uuid` with the stored form `data`.
pub open spec fn task_insertion(uuid: Uuid, data: Seq<char>) -> StatementView {
    binds_task(CREATING_TASK, INSERT_TASK, uuid, data)
}

/// The statement that puts the stored form `data` in the row of the task `uuid`,
/// whether or not there is one.
pub open spec fn task_replacement(uuid: Uuid, data: Seq<char>) -> StatementView {
    binds_task(UPDATING_TASK, REPLACE_TASK, uuid, data)
}

/// The statement that deletes the row of the task `uuid`.
pub open spec fn task_deletion(uuid: Uuid) -> StatementView {
    binds_uuid(DELETING_TASK, DELETE_TASK, uuid)
}

/// The query for every task.
pub open spec fn tasks_query() -> StatementView {
    binds_nothing(GETTING_TASKS, ALL_TASKS)
}

/// The query for the identifier of every task.
pub open spec fn uuids_query() -> StatementView {
    binds_nothing(GETTING_TASK_UUIDS, ALL_TASK_UUIDS)
}

/// The query for the base version.
pub open spec fn base_version_query() -> StatementView {
    binds_nothing(GETTING_BASE_VERSION, GET_BASE_VERSION)
}

/// The statement that sets the base version to `version`.
pub open spec fn base_version_replacement(version: VersionId) -> StatementView {
    StatementView {
        context: SETTING_BASE_VERSION,
        sql: REPLACE_BASE_VERSION,
        params: seq![
            SqlParamView::Text(BASE_VERSION_KEY@),
            SqlParamView::Blob(uuid_bytes(version)),
        ],
    }
}

/// The query for the operation log, in the order in which the operations were added.
pub open spec fn operations_query() -> StatementView {
    binds_nothing(GETTING_OPERATIONS, GET_OPERATIONS)
}

/// The statement that adds `op` at the end of the operation log.
pub open spec fn operation_insertion(op: OperationView) -> StatementView {
    StatementView {
        context: ADDING_OPERATION,
        sql: INSERT_OPERATION,
        params: seq![SqlParamView::Blob(operation_bytes(op))],
    }
}

/// The statement that deletes the rows of the operation log.
pub open spec fn operations_deletion() -> StatementView {
    binds_nothing(CLEARING_OPERATIONS, DELETE_OPERATIONS)
}

/// The statement that makes the numbering of the operation log start again.
pub open spec fn operation_ids_restart() -> StatementView {
    binds_nothing(CLEARING_OPERATIONS, RESTART_OPERATION_IDS)
}

/// The query for the rows of the working set, in the order of their slots.
pub open spec fn working_set_query() -> StatementView {
    binds_nothing(GETTING_WORKING_SET, GET_WORKING_SET)
}

/// What the row of a slot holds for an item: the bytes of the task's identifier, or
/// no value for an empty slot.
pub open spec fn item_param(item: Option<Uuid>) -> SqlParamView {
    match item {
        Some(uuid) => SqlParamView::Blob(uuid_bytes(uuid)),
        None => SqlParamView::Null,
    }
}

/// The statement that puts `item` in the row of `slot`, whether or not there is one.
pub open spec fn slot_replacement(slot: int, item: Option<Uuid>) -> StatementView {
    StatementView {
        context: SETTING_WORKING_SET_ITEM,
        sql: REPLACE_SLOT,
        params: seq![SqlParamView::Integer(slot as i64), item_param(item)],
    }
}

/// The statement that deletes every row of the working set.
pub open spec fn working_set_deletion() -> StatementView {
    binds_nothing(CLEARING_WORKING_SET, DELETE_WORKING_SET)
}

/// The statement that commits a transaction. `rusqlite` sends it.
pub open spec fn commitment() -> StatementView {
    binds_nothing(COMMITTING_TRANSACTION, COMMIT)
}

/// A statement without parameters.
pub fn plain(context: &'static str, sql: &'static str) -> (r: Statement)
    ensures
        r@ == binds_nothing(context, sql),
{
    let r = Statement { context, sql, params: Vec::new() };
    assert(r@.params =~= Seq::<SqlParamView>::empty());
    r
}

/// A statement that binds an identifier: its 16 bytes.
pub fn with_uuid(context: &'static str, sql: &'static str, uuid: Uuid) -> (r: Statement)
    ensures
        r@ == binds_uuid(context, sql, uuid),
{
    let mut params: Vec<SqlParam> = Vec::new();
    params.push(SqlParam::Blob(uuid_to_bytes(uuid)));
    let r = Statement { context, sql, params };
    assert(r@.params =~= seq![SqlParamView::Blob(uuid_bytes(uuid))]);
    r
}

/// A statement that binds an identifier and the stored form of a task.
pub fn with_task(context: &'static str, sql: &'static str, uuid: Uuid, data: String) -> (r:
    Statement)
    ensures
        r@ == binds_task(context, sql, uuid, data@),
{
    let mut params: Vec<SqlParam> = Vec::new();
    params.push(SqlParam::Blob(uuid_to_bytes(uuid)));
    params.push(SqlParam::Text(data));
    let r = Statement { context, sql, params };
    assert(r@.params =~= seq![SqlParamView::Blob(uuid_bytes(uuid)), SqlParamView::Text(data@)]);
    r
}

/// The statements that create the four tables, each unless it is there.
pub fn create_tables() -> (r: Vec<Statement>)
    ensures
        views(r@) == table_creations(),
{
    let mut r: Vec<Statement> = Vec::new();
    r.push(plain(CREATING_TABLE, CREATE_TASKS));
    r.push(plain(CREATING_TABLE, CREATE_SYNC_META));
    r.push(plain(CREATING_TABLE, CREATE_OPERATIONS));
    r.push(plain(CREATING_TABLE, CREATE_WORKING_SET));
    assert(views(r@) =~= table_creations());
    r
}

/// The query for the data of the task `uuid`.
pub fn get_task(uuid: Uuid) -> (r: Statement)
    ensures
        r@ == task_query(uuid),
{
    with_uuid(GETTING_TASK, GET_TASK, uuid)
}

/// The query that counts the rows of the task `uuid`.
pub fn count_task(uuid: Uuid) -> (r: Statement)
    ensures
        r@ == task_count(uuid),
{
    with_uuid(CREATING_TASK, COUNT_TASK, uuid)
}

/// The statement that inserts the task `uuid` with the stored form `data`.
pub fn insert_task(uuid: Uuid, data: String) -> (r: Statement)
    ensures
        r@ == task_insertion(uuid, data@),
{
    with_task(CREATING_TASK, INSERT_TASK, uuid, data)
}

/// The statement that puts the stored form `data` in the row of the task `uuid`,
/// whether or not there is one.
pub fn replace_task(uuid: Uuid, data: String) -> (r: Statement)
    ensures
        r@ == task_replacement(uuid, data@),
{
    with_task(UPDATING_TASK, REPLACE_TASK, uuid, data)
}

/// The statement that deletes the row of the task `uuid`.
pub fn delete_task(uuid: Uuid) -> (r: Statement)
    ensures
        r@ == task_deletion(uuid),
{
    with_uuid(DELETING_TASK, DELETE_TASK, uuid)
}

/// The query for every task.
pub fn all_tasks() -> (r: Statement)
    ensures
        r@ == tasks_query(),
{
    plain(GETTING_TASKS, ALL_TASKS)
}

/// The query for the identifier of every task.
pub fn all_task_uuids() -> (r: Statement)
    ensures
        r@ == uuids_query(),
{
    plain(GETTING_TASK_UUIDS, ALL_TASK_UUIDS)
}

/// The query for the base version.
pub fn get_base_version() -> (r: Statement)
    ensures
        r@ == base_version_query(),
{
    plain(GETTING_BASE_VERSION, GET_BASE_VERSION)
}

/// The statement that sets the base version.
pub fn replace_base_version(version: VersionId) -> (r: Statement)
    ensures
        r@ == base_version_replacement(version),
{
    let mut params: Vec<SqlParam> = Vec::new();
    params.push(SqlParam::Text(String::from_str(BASE_VERSION_KEY)));
    params.push(SqlParam::Blob(uuid_to_bytes(version)));
    let r = Statement { context: SETTING_BASE_VERSION, sql: REPLACE_BASE_VERSION, params };
    assert(r@.params =~= seq![
        SqlParamView::Text(BASE_VERSION_KEY@),
        SqlParamView::Blob(uuid_bytes(version)),
    ]);
    r
}

/// The query for the operation log, in the order in which the operations were added.
pub fn get_operations() -> (r: Statement)
    ensures
        r@ == operations_query(),
{
    plain(GETTING_OPERATIONS, GET_OPERATIONS)
}

/// The statement that adds `op` at the end of the operation log.
pub fn insert_operation(op: &Operation) -> (r: Statement)
    ensures
        r@ == operation_insertion(op@),
        operation_fits(op@),
{
    let mut params: Vec<SqlParam> = Vec::new();
    params.push(SqlParam::Blob(encode_operation(op)));
    let r = Statement { context: ADDING_OPERATION, sql: INSERT_OPERATION, params };
    assert(r@.params =~= seq![SqlParamView::Blob(operation_bytes(op@))]);
    r
}

/// The two statements that empty the operation log: the first deletes its rows, the
/// second makes the numbering of its rows start again.
pub fn clear_operations() -> (r: (Statement, Statement))
    ensures
        r.0@ == operations_deletion(),
        r.1@ == operation_ids_restart(),
{
    (
        plain(CLEARING_OPERATIONS, DELETE_OPERATIONS),
        plain(CLEARING_OPERATIONS, RESTART_OPERATION_IDS),
    )
}

/// The query for the rows of the working set, in the order of their slots.
pub fn get_working_set() -> (r: Statement)
    ensures
        r@ == working_set_query(),
{
    plain(GETTING_WORKING_SET, GET_WORKING_SET)
}

/// The statement that puts `item` in the row of `slot`, whether or not there is one;
/// none for a slot that is greater than any whole number of the database.
pub fn replace_slot(slot: usize, item: Option<Uuid>) -> (r: Option<Statement>)
    ensures
        r is Some <==> slot <= i64::MAX,
        r matches Some(statement) ==> statement@ == slot_replacement(slot as int, item),
{
    if slot as u64 > i64::MAX as u64 {
        return None;
    }
    let mut params: Vec<SqlParam> = Vec::new();
    params.push(SqlParam::Integer(slot as i64));
    match item {
        Some(uuid) => params.push(SqlParam::Blob(uuid_to_bytes(uuid))),
        None => params.push(SqlParam::Null),
    }
    let r = Statement { context: SETTING_WORKING_SET_ITEM, sql: REPLACE_SLOT, params };
    assert(r@.params =~= seq![SqlParamView::Integer(slot as i64), item_param(item)]);
    Some(r)
}

/// The statement that deletes every row of the working set.
pub fn clear_working_set() -> (r: Statement)
    ensures
        r@ == working_set_deletion(),
{
    plain(CLEARING_WORKING_SET, DELETE_WORKING_SET)
}

} // verus!
