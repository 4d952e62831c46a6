//! The store on disk: an SQLite database of four tables in a directory that the caller
//! names. A transaction of the store is a transaction of the database: `commit` commits
//! it, and a transaction that is dropped is rolled back. A transaction borrows its store
//! for as long as it lives, so a store never has two; where another connection holds
//! the database, a call fails with `Busy`.
//!
//! What the database answers depends on the database file. So the contracts here are
//! stated over the exchanges of a transaction with the database: which statements a
//! call sends, in what order, and what it returns for each answer that the database
//! can give.

use crate::errors::StorageError;
use crate::ids::{Uuid, VersionId};
use crate::json::{encode_task, encoded_task, task_view};
use crate::operation::{Operation, OperationView};
use crate::rows::{
    any_counted, operations_of_rows, reads, rows_any, rows_operations, rows_stored_working_set,
    rows_task, rows_tasks, rows_uuids, rows_version, task_of_rows, tasks_of_rows, uuids_of_rows,
    version_of_rows, working_set_of_rows,
};
use crate::sql::{
    begin_transaction, bind, commit_transaction, connection_of, error_is_busy, error_text,
    execute, open_database, query, SqlValue,
};
use crate::statements;
use crate::statements::{
    base_version_query, base_version_replacement, commitment, operation_ids_restart,
    operation_insertion, operations_deletion, operations_query, slot_replacement,
    table_creations, task_count, task_deletion, task_insertion, task_query, task_replacement,
    tasks_query, uuids_query, working_set_deletion, working_set_query, Statement, StatementView,
    COMMITTING_TRANSACTION, CREATING_TABLE, OPENING_DATABASE, OPENING_TRANSACTION,
};
use crate::taskmap::TaskMap;
use crate::views::views;
use crate::working_set::{is_working_set, lowest_free_slot};
use vstd::prelude::*;
use vstd::string::StringExecFns;

verus! {

/// The name of the database file in the store's directory.
pub const DATABASE_FILE: &'static str = "taskchampion.sqlite3";

/// What the database answered to a statement.
pub enum Answer {
    /// The statement ran, and changed this many rows.
    Changed(usize),
    /// The query ran, and gave these rows.
    Rows(Seq<Vec<SqlValue>>),
    /// The statement ran; nothing is counted and no row is given.
    Done,
    /// The database raised a fault.
    Fault,
}

/// One statement that was sent to the database, and what the database answered.
pub struct Exchange {
    pub statement: StatementView,
    pub answer: Answer,
}

/// `after` is `before` and one exchange more, in which `statement` was sent.
pub open spec fn one_more(before: Seq<Exchange>, after: Seq<Exchange>, statement: StatementView)
    -> bool {
    after.len() == before.len() + 1 && after.drop_last() == before && after.last().statement
        == statement
}

/// A fault is one that the database raised.
pub open spec fn is_database_fault(e: StorageError) -> bool {
    e is Backend || e is Busy
}

/// The text of a backend fault: what was attempted, a colon and a space, and what went
/// wrong.
pub open spec fn fault_text(context: Seq<char>, detail: Seq<char>) -> Seq<char> {
    context + ": "@ + detail
}

/// `e` reports a fault of the database that was met at `context`: it is `Busy`, or a
/// backend fault whose text names `context` and then says what went wrong.
pub open spec fn reports(e: StorageError, context: Seq<char>) -> bool {
    &&& is_database_fault(e)
    &&& e matches StorageError::Backend(text) ==> exists|detail: Seq<char>|
        text@ == #[trigger] fault_text(context, detail)
}

/// `r` is the fault of the database that was met in `exchange`, with what the
/// statement of the exchange attempted.
pub open spec fn fails<T>(r: Result<T, StorageError>, exchange: Exchange) -> bool {
    r matches Err(e) && reports(e, exchange.statement.context@)
}

/// `r` is what a call returns whose last exchange sent a statement that only changes
/// the database: success where the statement ran, else the fault of the database,
/// with what the statement attempted.
pub open spec fn changes(r: Result<(), StorageError>, exchange: Exchange) -> bool {
    match exchange.answer {
        Answer::Changed(_) | Answer::Done => r is Ok,
        _ => fails(r, exchange),
    }
}

/// `r` is what a call returns whose last exchange sent a query, and which reads
/// `want` from the rows: what reading gives where the query ran, else the fault of
/// the database, with what the query attempted.
pub open spec fn asks<T, V>(
    r: Result<T, StorageError>,
    exchange: Exchange,
    want: spec_fn(Seq<Vec<SqlValue>>) -> Option<V>,
    says: spec_fn(T) -> V,
) -> bool {
    match exchange.answer {
        Answer::Rows(rows) => reads(r, want(rows), says),
        _ => fails(r, exchange),
    }
}

/// The fault to report for an error of the database: `Busy` where another connection
/// holds the database, else a backend fault whose text names what was attempted and
/// then says what went wrong. Which of the two it is, and what went wrong, is what
/// `rusqlite` says of the error; `fault_of` states what is reported for each.
fn database_fault(context: &str, e: &rusqlite::Error) -> (r: StorageError)
    ensures
        reports(r, context@),
{
    let busy = error_is_busy(e);
    let detail = error_text(e);
    fault_of(context, busy, detail.as_str())
}

/// The fault to report for an error of the database, given what the error says: `Busy`
/// where it says that another connection holds the database, else a backend fault
/// with the text of `context`, a colon and a space, and `detail`.
pub fn fault_of(context: &str, busy: bool, detail: &str) -> (r: StorageError)
    ensures
        busy ==> r == StorageError::Busy,
        !busy ==> (r matches StorageError::Backend(text) && text@ == fault_text(
            context@,
            detail@,
        )),
{
    if busy {
        StorageError::Busy
    } else {
        StorageError::Backend(String::from_str(context).concat(": ").concat(detail))
    }
}

/// The slot that a task takes which is added to the working set that `rows` hold:
/// the lowest empty slot from 1 on, or the slot one past the end. Nothing where the
/// rows cannot be read, or where the slot is greater than any whole number of the
/// database.
pub open spec fn rows_next_slot(rows: Seq<Vec<SqlValue>>) -> Option<usize> {
    match rows_stored_working_set(rows) {
        Some(ws) => if lowest_free_slot(ws) <= i64::MAX {
            Some(lowest_free_slot(ws) as usize)
        } else {
            None
        },
        None => None,
    }
}

/// What to do to add `uuid` to the working set that `rows` hold: the slot that the
/// task takes, and the statement that puts the task there.
pub fn plan_add_to_working_set(rows: &Vec<Vec<SqlValue>>, uuid: Uuid) -> (r: Result<
    (usize, Statement),
    StorageError,
>)
    ensures
        reads(r, rows_next_slot(rows@), |plan: (usize, Statement)| plan.0),
        r matches Ok((slot, statement)) ==> 1 <= slot <= i64::MAX && statement@ == slot_replacement(
            slot as int,
            Some(uuid),
        ),
{
    let ws = working_set_of_rows(rows)?;
    let slot = ws.next_slot();
    match statements::replace_slot(slot, Some(uuid)) {
        Some(statement) => Ok((slot, statement)),
        None => Err(StorageError::Encoding(String::from_str("working set is full"))),
    }
}

/// What to do to assign slot `index` of the working set: the statement that puts
/// `item` in the row of the slot. Slot 0 is reserved, and a slot that is greater than
/// any whole number of the database cannot be stored.
pub fn plan_set_working_set_item(index: usize, item: Option<Uuid>) -> (r: Result<
    Statement,
    StorageError,
>)
    ensures
        r is Ok <==> 1 <= index <= i64::MAX,
        r matches Ok(statement) ==> statement@ == slot_replacement(index as int, item),
        index == 0 ==> r matches Err(StorageError::InvalidIndex),
        index > i64::MAX ==> r matches Err(StorageError::Encoding(_)),
{
    if index == 0 {
        return Err(StorageError::InvalidIndex);
    }
    match statements::replace_slot(index, item) {
        Some(statement) => Ok(statement),
        None => Err(StorageError::Encoding(String::from_str("slot is out of range"))),
    }
}

/// The statements that put `ops` in the place of the operation log: the two that
/// empty the log, and one for each operation, in order.
pub open spec fn replaces_log(ops: Seq<OperationView>) -> Seq<StatementView> {
    seq![operations_deletion(), operation_ids_restart()] + ops.map_values(
        |op: OperationView| operation_insertion(op),
    )
}

/// `run` is a run of exchanges in which `statements` were sent in order, up to the
/// first that the database did not take: every exchange but the last changed rows.
pub open spec fn sends_in_order(run: Seq<Exchange>, statements: Seq<StatementView>) -> bool {
    &&& 1 <= run.len() <= statements.len()
    &&& forall|i: int| 0 <= i < run.len() ==> (#[trigger] run[i]).statement == statements[i]
    &&& forall|i: int| 0 <= i < run.len() - 1 ==> (#[trigger] run[i]).answer is Changed
}

/// `run` is a run of exchanges in which every one of `statements` was sent, in order,
/// and the database took each.
pub open spec fn took_all(run: Seq<Exchange>, statements: Seq<StatementView>) -> bool {
    &&& run.len() == statements.len()
    &&& forall|i: int|
        0 <= i < run.len() ==> (#[trigger] run[i]).statement == statements[i] && run[i].answer
            is Changed
}

/// What was opened as the database: the file named `file` in `directory`.
pub struct Opening {
    pub directory: std::path::PathBuf,
    pub file: Seq<char>,
}

/// `Connection::open` on `file_name` in `directory`, with the record of what was
/// opened.
fn open_file(directory: &std::path::PathBuf, file_name: &str) -> (r: Result<
    (rusqlite::Connection, Ghost<Opening>),
    StorageError,
>)
    ensures
        r matches Ok((_, opening)) ==> opening@ == (Opening {
            directory: *directory,
            file: file_name@,
        }),
        r matches Err(e) ==> reports(e, OPENING_DATABASE@),
{
    match open_database(directory, file_name) {
        Ok(con) => Ok((con, Ghost(Opening { directory: *directory, file: file_name@ }))),
        Err(e) => Err(database_fault(OPENING_DATABASE, &e)),
    }
}

/// Sends a statement over a connection: the number of rows that it changed, and the
/// exchange that this was.
fn send(con: &rusqlite::Connection, statement: &Statement) -> (r: (
    Result<usize, StorageError>,
    Ghost<Exchange>,
))
    ensures
        r.1@.statement == statement@,
        match r.0 {
            Ok(changed) => r.1@.answer == Answer::Changed(changed),
            Err(e) => r.1@.answer == Answer::Fault && reports(e, statement@.context@),
        },
{
    match execute(con, statement.sql, &bind(&statement.params)) {
        Ok(changed) => (
            Ok(changed),
            Ghost(Exchange { statement: statement@, answer: Answer::Changed(changed) }),
        ),
        Err(e) => (
            Err(database_fault(statement.context, &e)),
            Ghost(Exchange { statement: statement@, answer: Answer::Fault }),
        ),
    }
}

/// Sends a query over a connection: the rows that it gives, and the exchange that
/// this was.
fn question(con: &rusqlite::Connection, statement: &Statement) -> (r: (
    Result<Vec<Vec<SqlValue>>, StorageError>,
    Ghost<Exchange>,
))
    ensures
        r.1@.statement == statement@,
        match r.0 {
            Ok(rows) => r.1@.answer == Answer::Rows(rows@),
            Err(e) => r.1@.answer == Answer::Fault && reports(e, statement@.context@),
        },
{
    match query(con, statement.sql, &bind(&statement.params)) {
        Ok(rows) => {
            let ghost exchange = Exchange { statement: statement@, answer: Answer::Rows(rows@) };
            (Ok(rows), Ghost(exchange))
        },
        Err(e) => (
            Err(database_fault(statement.context, &e)),
            Ghost(Exchange { statement: statement@, answer: Answer::Fault }),
        ),
    }
}

/// Tells the database to create each of the four tables unless it is there: the
/// statements are sent in order, up to the first that the database does not take, and
/// the result is that of the last one sent.
fn set_up_tables(con: &rusqlite::Connection) -> (r: (
    Result<(), StorageError>,
    Ghost<Seq<Exchange>>,
))
    ensures
        sends_in_order(r.1@, table_creations()),
        changes(r.0, r.1@.last()),
        r.0 is Ok <==> took_all(r.1@, table_creations()),
{
    let tables = statements::create_tables();
    let ghost mut run: Seq<Exchange> = Seq::empty();
    let mut i: usize = 0;
    assert(views(tables@).len() == 4);
    while i < tables.len()
        invariant
            i <= tables.len(),
            tables@.len() == 4,
            views(tables@) == table_creations(),
            run.len() == i,
            forall|k: int|
                0 <= k < i ==> (#[trigger] run[k]).statement == table_creations()[k] && run[k].answer
                    is Changed,
        decreases tables.len() - i,
    {
        let (sent, exchange) = send(con, &tables[i]);
        proof {
            assert(views(tables@)[i as int] == tables@[i as int]@);
            run = run.push(exchange@);
        }
        match sent {
            Ok(_) => {},
            Err(e) => {
                return (Err(e), Ghost(run));
            },
        }
        i = i + 1;
    }
    (Ok(()), Ghost(run))
}

/// SqliteStorage is an on-disk storage backed by SQLite3.
pub struct SqliteStorage {
    con: rusqlite::Connection,
    opening: Ghost<Opening>,
    set_up: Ghost<Seq<Exchange>>,
}

/// A transaction on a store on disk.
pub struct Txn<'t> {
    txn: Option<rusqlite::Transaction<'t>>,
    exchanges: Ghost<Seq<Exchange>>,
}

impl SqliteStorage {
    /// The directory that the store was opened in.
    pub closed spec fn directory(&self) -> std::path::PathBuf {
        self.opening@.directory
    }

    /// The name of the database file that was opened in the directory.
    pub closed spec fn file(&self) -> Seq<char> {
        self.opening@.file
    }

    /// The exchanges with the database when the store was opened.
    pub closed spec fn set_up(&self) -> Seq<Exchange> {
        self.set_up@
    }

    /// Opens the store in `directory`, which must exist: the file `DATABASE_FILE` in
    /// it is opened as the database, and created where it is missing, and the
    /// database is told to create each of the four tables unless it is there. The
    /// store comes out where the file opened and the database took all four
    /// statements; else the fault of the opening, or of the first statement that the
    /// database did not take, comes out, with what was attempted.
    pub fn new(directory: &std::path::PathBuf) -> (r: Result<SqliteStorage, StorageError>)
        ensures
            r matches Ok(storage) ==> storage.directory() == *directory && storage.file()
                == DATABASE_FILE@ && took_all(storage.set_up(), table_creations()),
            r matches Err(e) ==> reports(e, OPENING_DATABASE@) || reports(e, CREATING_TABLE@),
    {
        let (con, opening) = open_file(directory, DATABASE_FILE)?;
        let (created, run) = set_up_tables(&con);
        match created {
            Ok(()) => Ok(SqliteStorage { con, opening, set_up: run }),
            Err(e) => {
                assert(table_creations()[run@.len() - 1].context == CREATING_TABLE);
                Err(e)
            },
        }
    }

    /// Opens a transaction, which is live and has had no exchange with the database.
    pub fn txn<'a>(&'a mut self) -> (r: Result<Txn<'a>, StorageError>)
        ensures
            r matches Ok(txn) ==> txn.is_live() && txn.exchanges() == Seq::<Exchange>::empty(),
            r matches Err(e) ==> reports(e, OPENING_TRANSACTION@),
    {
        match begin_transaction(&mut self.con) {
            Ok(txn) => Ok(Txn { txn: Some(txn), exchanges: Ghost(Seq::empty()) }),
            Err(e) => Err(database_fault(OPENING_TRANSACTION, &e)),
        }
    }
}

impl<'t> Txn<'t> {
    /// False once the transaction was committed.
    pub closed spec fn is_live(&self) -> bool {
        self.txn is Some
    }

    /// The exchanges that the transaction has had with the database, in order.
    pub closed spec fn exchanges(&self) -> Seq<Exchange> {
        self.exchanges@
    }

    /// A call on a transaction that was committed is refused, and has no exchange with
    /// the database.
    pub open spec fn refuses<T>(old_txn: &Txn<'t>, new_txn: &Txn<'t>, r: Result<T, StorageError>)
        -> bool {
        &&& new_txn.is_live() == old_txn.is_live()
        &&& !old_txn.is_live() ==> (r matches Err(StorageError::TransactionAlreadyCommitted))
        &&& !old_txn.is_live() ==> new_txn.exchanges() == old_txn.exchanges()
    }

    /// The connection of a live transaction.
    fn get_txn(&self) -> (r: Result<&rusqlite::Connection, StorageError>)
        ensures
            self.is_live() ==> r is Ok,
            !self.is_live() ==> r matches Err(StorageError::TransactionAlreadyCommitted),
    {
        match &self.txn {
            Some(txn) => Ok(connection_of(txn)),
            None => Err(StorageError::TransactionAlreadyCommitted),
        }
    }

    /// Sends a statement; the number of rows that it changed.
    fn run(&mut self, statement: &Statement) -> (r: Result<usize, StorageError>)
        ensures
            Txn::refuses(old(self), final(self), r),
            old(self).is_live() ==> one_more(
                old(self).exchanges(),
                final(self).exchanges(),
                statement@,
            ),
            old(self).is_live() ==> match r {
                Ok(changed) => final(self).exchanges().last().answer == Answer::Changed(changed),
                Err(e) => final(self).exchanges().last().answer == Answer::Fault && reports(
                    e,
                    statement@.context@,
                ),
            },
    {
        let con = self.get_txn()?;
        let ghost before = self.exchanges@;
        let (r, exchange) = send(con, statement);
        self.exchanges = Ghost(before.push(exchange@));
        assert(self.exchanges@.drop_last() =~= before);
        r
    }

    /// Sends a query; the rows that it gives.
    fn ask(&mut self, statement: &Statement) -> (r: Result<Vec<Vec<SqlValue>>, StorageError>)
        ensures
            Txn::refuses(old(self), final(self), r),
            old(self).is_live() ==> one_more(
                old(self).exchanges(),
                final(self).exchanges(),
                statement@,
            ),
            old(self).is_live() ==> match r {
                Ok(rows) => final(self).exchanges().last().answer == Answer::Rows(rows@),
                Err(e) => final(self).exchanges().last().answer == Answer::Fault && reports(
                    e,
                    statement@.context@,
                ),
            },
    {
        let con = self.get_txn()?;
        let ghost before = self.exchanges@;
        let (r, exchange) = question(con, statement);
        self.exchanges = Ghost(before.push(exchange@));
        assert(self.exchanges@.drop_last() =~= before);
        r
    }

    /// The task `uuid`, if the database has it.
    pub fn get_task(&mut self, uuid: Uuid) -> (r: Result<Option<TaskMap>, StorageError>)
        ensures
            Txn::refuses(old(self), final(self), r),
            old(self).is_live() ==> one_more(
                old(self).exchanges(),
                final(self).exchanges(),
                task_query(uuid),
            ) && asks(
                r,
                final(self).exchanges().last(),
                |rows: Seq<Vec<SqlValue>>| rows_task(rows),
                |task: Option<TaskMap>| task_view(task),
            ),
    {
        let rows = self.ask(&statements::get_task(uuid))?;
        task_of_rows(&rows)
    }

    /// Creates the task `uuid` without properties, unless the database has the task;
    /// true where it was created. The database is asked to count the rows of the
    /// task, and where it counts none, it is told to insert the task.
    pub fn create_task(&mut self, uuid: Uuid) -> (r: Result<bool, StorageError>)
        ensures
            Txn::refuses(old(self), final(self), r),
            old(self).is_live() ==> {
                let before = old(self).exchanges();
                let after = final(self).exchanges();
                let count = task_count(uuid);
                let empty = Map::<Seq<char>, Seq<char>>::empty();
                if after.len() == before.len() + 1 {
                    &&& one_more(before, after, count)
                    &&& match after.last().answer {
                        Answer::Rows(rows) => match rows_any(rows) {
                            Some(true) => r == Ok::<bool, StorageError>(false),
                            Some(false) => (r matches Err(StorageError::Encoding(_)))
                                && encoded_task(empty) is None,
                            None => (r matches Err(StorageError::Encoding(_))),
                        },
                        _ => fails(r, after.last()),
                    }
                } else {
                    &&& one_more(before, after.drop_last(), count)
                    &&& (after.drop_last().last().answer matches Answer::Rows(rows) && rows_any(
                        rows,
                    ) == Some(false))
                    &&& encoded_task(empty) is Some
                    &&& one_more(
                        after.drop_last(),
                        after,
                        task_insertion(uuid, encoded_task(empty)->0),
                    )
                    &&& match after.last().answer {
                        Answer::Changed(_) => r == Ok::<bool, StorageError>(true),
                        _ => fails(r, after.last()),
                    }
                }
            },
    {
        let rows = self.ask(&statements::count_task(uuid))?;
        if any_counted(&rows)? {
            return Ok(false);
        }
        let data = TaskMap::default();
        let data_str = encode_task(&data)?;
        self.run(&statements::insert_task(uuid, data_str))?;
        Ok(true)
    }

    /// Sets the task `uuid` to `task`, whether or not the database had the task. A
    /// task whose stored form does not read back as the task is an encoding fault, and
    /// nothing is sent; for every other task the replacement is sent.
    pub fn set_task(&mut self, uuid: Uuid, task: TaskMap) -> (r: Result<(), StorageError>)
        ensures
            Txn::refuses(old(self), final(self), r),
            old(self).is_live() ==> ((r matches Err(StorageError::Encoding(_))) <==> encoded_task(
                task@,
            ) is None),
            old(self).is_live() ==> if r matches Err(StorageError::Encoding(_)) {
                final(self).exchanges() == old(self).exchanges()
            } else {
                &&& encoded_task(task@) is Some
                &&& one_more(
                    old(self).exchanges(),
                    final(self).exchanges(),
                    task_replacement(uuid, encoded_task(task@)->0),
                )
                &&& changes(r, final(self).exchanges().last())
            },
    {
        let _ = self.get_txn()?;
        let data_str = encode_task(&task)?;
        self.run(&statements::replace_task(uuid, data_str))?;
        Ok(())
    }

    /// Deletes the task `uuid`; true where a row was removed.
    pub fn delete_task(&mut self, uuid: Uuid) -> (r: Result<bool, StorageError>)
        ensures
            Txn::refuses(old(self), final(self), r),
            old(self).is_live() ==> one_more(
                old(self).exchanges(),
                final(self).exchanges(),
                task_deletion(uuid),
            ) && match final(self).exchanges().last().answer {
                Answer::Changed(changed) => r == Ok::<bool, StorageError>(changed > 0),
                _ => fails(r, final(self).exchanges().last()),
            },
    {
        let changed = self.run(&statements::delete_task(uuid))?;
        Ok(changed > 0)
    }

    /// Every task with its identifier, in the order in which the database gives
    /// them. A task that cannot be decoded fails the whole call.
    pub fn all_tasks(&mut self) -> (r: Result<Vec<(Uuid, TaskMap)>, StorageError>)
        ensures
            Txn::refuses(old(self), final(self), r),
            old(self).is_live() ==> one_more(
                old(self).exchanges(),
                final(self).exchanges(),
                tasks_query(),
            ) && asks(
                r,
                final(self).exchanges().last(),
                |rows: Seq<Vec<SqlValue>>| rows_tasks(rows),
                |tasks: Vec<(Uuid, TaskMap)>| views(tasks@),
            ),
    {
        let rows = self.ask(&statements::all_tasks())?;
        tasks_of_rows(&rows)
    }

    /// The identifier of every task, in the order in which the database gives them.
    pub fn all_task_uuids(&mut self) -> (r: Result<Vec<Uuid>, StorageError>)
        ensures
            Txn::refuses(old(self), final(self), r),
            old(self).is_live() ==> one_more(
                old(self).exchanges(),
                final(self).exchanges(),
                uuids_query(),
            ) && asks(
                r,
                final(self).exchanges().last(),
                |rows: Seq<Vec<SqlValue>>| rows_uuids(rows),
                |uuids: Vec<Uuid>| uuids@,
            ),
    {
        let rows = self.ask(&statements::all_task_uuids())?;
        uuids_of_rows(&rows)
    }

    /// The base version; the all-zero identifier where none was set.
    pub fn base_version(&mut self) -> (r: Result<VersionId, StorageError>)
        ensures
            Txn::refuses(old(self), final(self), r),
            old(self).is_live() ==> one_more(
                old(self).exchanges(),
                final(self).exchanges(),
                base_version_query(),
            ) && asks(
                r,
                final(self).exchanges().last(),
                |rows: Seq<Vec<SqlValue>>| rows_version(rows),
                |version: VersionId| version,
            ),
    {
        let rows = self.ask(&statements::get_base_version())?;
        version_of_rows(&rows)
    }

    /// Sets the base version.
    pub fn set_base_version(&mut self, version: VersionId) -> (r: Result<(), StorageError>)
        ensures
            Txn::refuses(old(self), final(self), r),
            old(self).is_live() ==> one_more(
                old(self).exchanges(),
                final(self).exchanges(),
                base_version_replacement(version),
            ) && changes(r, final(self).exchanges().last()),
    {
        self.run(&statements::replace_base_version(version))?;
        Ok(())
    }

    /// The operation log, the oldest operation first.
    pub fn operations(&mut self) -> (r: Result<Vec<Operation>, StorageError>)
        ensures
            Txn::refuses(old(self), final(self), r),
            old(self).is_live() ==> one_more(
                old(self).exchanges(),
                final(self).exchanges(),
                operations_query(),
            ) && asks(
                r,
                final(self).exchanges().last(),
                |rows: Seq<Vec<SqlValue>>| rows_operations(rows),
                |log: Vec<Operation>| views(log@),
            ),
    {
        let rows = self.ask(&statements::get_operations())?;
        operations_of_rows(&rows)
    }

    /// Adds `op` at the end of the operation log.
    pub fn add_operation(&mut self, op: Operation) -> (r: Result<(), StorageError>)
        ensures
            Txn::refuses(old(self), final(self), r),
            old(self).is_live() ==> one_more(
                old(self).exchanges(),
                final(self).exchanges(),
                operation_insertion(op@),
            ) && changes(r, final(self).exchanges().last()),
    {
        self.run(&statements::insert_operation(&op))?;
        Ok(())
    }

    /// Puts `ops` in the place of the operation log. The numbering of the log starts
    /// again, so that operations that are added later follow `ops`. The statements
    /// are sent in order, up to the first that the database does not take; the call
    /// succeeds where the database took them all.
    pub fn set_operations(&mut self, ops: Vec<Operation>) -> (r: Result<(), StorageError>)
        ensures
            Txn::refuses(old(self), final(self), r),
            old(self).is_live() ==> {
                let before = old(self).exchanges();
                let after = final(self).exchanges();
                let all = replaces_log(views(ops@));
                &&& before.len() < after.len()
                &&& after.subrange(0, before.len() as int) == before
                &&& sends_in_order(after.subrange(before.len() as int, after.len() as int), all)
                &&& r is Ok ==> after.len() == before.len() + all.len()
                &&& changes(r, after.last())
            },
    {
        let _ = self.get_txn()?;
        let ghost all = replaces_log(views(ops@));
        let ghost before = self.exchanges@;
        let (delete, restart) = statements::clear_operations();
        let deleted = self.run(&delete);
        proof {
            assert(self.exchanges@.subrange(0, before.len() as int) =~= before);
        }
        match deleted {
            Ok(_) => {},
            Err(e) => {
                return Err(e);
            },
        }
        let ghost first = self.exchanges@;
        let restarted = self.run(&restart);
        proof {
            assert(self.exchanges@.subrange(0, before.len() as int) =~= before) by {
                assert(self.exchanges@.drop_last() == first);
            }
            let run = self.exchanges@.subrange(before.len() as int, self.exchanges@.len() as int);
            assert(run[0] == first.last());
            assert(run[1] == self.exchanges@.last());
        }
        match restarted {
            Ok(_) => {},
            Err(e) => {
                return Err(e);
            },
        }
        let mut i: usize = 0;
        while i < ops.len()
            invariant
                i <= ops.len(),
                self.is_live(),
                old(self).is_live(),
                before == old(self).exchanges(),
                all == replaces_log(views(ops@)),
                self.exchanges@.len() == before.len() + 2 + i,
                self.exchanges@.subrange(0, before.len() as int) == before,
                sends_in_order(
                    self.exchanges@.subrange(before.len() as int, self.exchanges@.len() as int),
                    all,
                ),
                self.exchanges@.last().answer is Changed,
            decreases ops.len() - i,
        {
            let ghost so_far = self.exchanges@;
            let sent = self.run(&statements::insert_operation(&ops[i]));
            proof {
                let now = self.exchanges@;
                assert(now.drop_last() == so_far);
                assert(now.subrange(0, before.len() as int) =~= before) by {
                    assert(so_far.subrange(0, before.len() as int) == before);
                }
                let run_before = so_far.subrange(before.len() as int, so_far.len() as int);
                let run = now.subrange(before.len() as int, now.len() as int);
                assert forall|k: int| 0 <= k < run.len() implies (#[trigger] run[k]).statement
                    == all[k] by {
                    if k < run_before.len() {
                        assert(run[k] == run_before[k]);
                    } else {
                        assert(run[k] == now.last());
                        assert(views(ops@)[i as int] == ops@[i as int]@);
                    }
                }
                assert forall|k: int| 0 <= k < run.len() - 1 implies (#[trigger] run[k]).answer
                    is Changed by {
                    if k < run_before.len() - 1 {
                        assert(run[k] == run_before[k]);
                    } else {
                        assert(run[k] == so_far.last());
                    }
                }
            }
            match sent {
                Ok(_) => {},
                Err(e) => {
                    return Err(e);
                },
            }
            i = i + 1;
        }
        Ok(())
    }

    /// The working set, from the reserved slot 0 on: one longer than the greatest
    /// slot that has a row. Slot 0 is always empty.
    pub fn get_working_set(&mut self) -> (r: Result<Vec<Option<Uuid>>, StorageError>)
        ensures
            Txn::refuses(old(self), final(self), r),
            old(self).is_live() ==> one_more(
                old(self).exchanges(),
                final(self).exchanges(),
                working_set_query(),
            ) && asks(
                r,
                final(self).exchanges().last(),
                |rows: Seq<Vec<SqlValue>>| rows_stored_working_set(rows),
                |slots: Vec<Option<Uuid>>| slots@,
            ),
            r matches Ok(slots) ==> is_working_set(slots@),
    {
        let rows = self.ask(&statements::get_working_set())?;
        let ws = working_set_of_rows(&rows)?;
        Ok(ws.slots())
    }

    /// Puts `uuid` in the lowest empty slot of the working set from 1 on, or in a new
    /// slot at the end where none is empty, and returns the slot. The database is
    /// asked for the working set, and then told to put the task in the slot.
    pub fn add_to_working_set(&mut self, uuid: Uuid) -> (r: Result<usize, StorageError>)
        ensures
            Txn::refuses(old(self), final(self), r),
            old(self).is_live() ==> {
                let before = old(self).exchanges();
                let after = final(self).exchanges();
                let query = working_set_query();
                if after.len() == before.len() + 1 {
                    &&& one_more(before, after, query)
                    &&& r is Err
                    &&& asks(
                        r,
                        after.last(),
                        |rows: Seq<Vec<SqlValue>>| rows_next_slot(rows),
                        |slot: usize| slot,
                    )
                } else {
                    &&& one_more(before, after.drop_last(), query)
                    &&& after.drop_last().last().answer matches Answer::Rows(rows)
                    &&& rows_next_slot(rows) matches Some(slot)
                    &&& slot >= 1
                    &&& one_more(after.drop_last(), after, slot_replacement(slot as int, Some(uuid)))
                    &&& match after.last().answer {
                        Answer::Changed(_) => r == Ok::<usize, StorageError>(slot),
                        _ => fails(r, after.last()),
                    }
                }
            },
    {
        let rows = self.ask(&statements::get_working_set())?;
        let (slot, statement) = plan_add_to_working_set(&rows, uuid)?;
        self.run(&statement)?;
        Ok(slot)
    }

    /// Assigns slot `index` of the working set. Slot 0 is reserved: assigning it is a
    /// fault. A slot past the end lengthens the working set; an empty item keeps the
    /// row of its slot, so it never shortens it.
    pub fn set_working_set_item(&mut self, index: usize, uuid: Option<Uuid>) -> (r: Result<
        (),
        StorageError,
    >)
        ensures
            Txn::refuses(old(self), final(self), r),
            old(self).is_live() ==> if index == 0 {
                r matches Err(StorageError::InvalidIndex) && final(self).exchanges() == old(
                    self,
                ).exchanges()
            } else if index > i64::MAX {
                r matches Err(StorageError::Encoding(_)) && final(self).exchanges() == old(
                    self,
                ).exchanges()
            } else {
                one_more(
                    old(self).exchanges(),
                    final(self).exchanges(),
                    slot_replacement(index as int, uuid),
                ) && changes(r, final(self).exchanges().last())
            },
    {
        let _ = self.get_txn()?;
        let statement = plan_set_working_set_item(index, uuid)?;
        self.run(&statement)?;
        Ok(())
    }

    /// Empties the working set: it reads as the reserved slot alone.
    pub fn clear_working_set(&mut self) -> (r: Result<(), StorageError>)
        ensures
            Txn::refuses(old(self), final(self), r),
            old(self).is_live() ==> one_more(
                old(self).exchanges(),
                final(self).exchanges(),
                working_set_deletion(),
            ) && changes(r, final(self).exchanges().last()),
    {
        self.run(&statements::clear_working_set())?;
        Ok(())
    }

    /// Commits the transaction of the database and ends this transaction, whether or
    /// not the database took the commit: every later call, `commit` too, is a fault.
    /// The commit is one exchange more, in which `rusqlite` sends `COMMIT`; the call
    /// succeeds where the database took it. A transaction that is dropped without this
    /// call is rolled back.
    pub fn commit(&mut self) -> (r: Result<(), StorageError>)
        ensures
            !final(self).is_live(),
            !old(self).is_live() ==> r matches Err(StorageError::TransactionAlreadyCommitted),
            !old(self).is_live() ==> final(self).exchanges() == old(self).exchanges(),
            old(self).is_live() ==> one_more(
                old(self).exchanges(),
                final(self).exchanges(),
                commitment(),
            ) && changes(r, final(self).exchanges().last()),
    {
        let ghost before = self.exchanges@;
        match self.txn.take() {
            Some(txn) => match commit_transaction(txn) {
                Ok(()) => {
                    self.exchanges = Ghost(
                        before.push(Exchange { statement: commitment(), answer: Answer::Done }),
                    );
                    assert(self.exchanges@.drop_last() =~= before);
                    Ok(())
                },
                Err(e) => {
                    self.exchanges = Ghost(
                        before.push(Exchange { statement: commitment(), answer: Answer::Fault }),
                    );
                    assert(self.exchanges@.drop_last() =~= before);
                    Err(database_fault(COMMITTING_TRANSACTION, &e))
                },
            },
            None => Err(StorageError::TransactionAlreadyCommitted),
        }
    }
}

} // verus!
