//! The calls into SQLite. The functions here that call `rusqlite` are not proved: each
//! hands its arguments to `rusqlite` and hands back what came out. What comes out
//! depends on the database file, so no contract here says what a statement returns.

use vstd::prelude::*;

verus! {

/// `rusqlite::Connection`: a connection to a database.
#[verifier::external_type_specification]
#[verifier::external_body]
pub struct ExConnection(rusqlite::Connection);

/// `rusqlite::Transaction`: a transaction of the database on a connection.
#[verifier::external_type_specification]
#[verifier::external_body]
pub struct ExTransaction<'conn>(rusqlite::Transaction<'conn>);

/// `rusqlite::Row`: one row that a query gives.
#[verifier::external_type_specification]
#[verifier::external_body]
pub struct ExRow<'stmt>(rusqlite::Row<'stmt>);

/// `rusqlite::Error`: a fault that `rusqlite` or the database raised.
#[verifier::external_type_specification]
#[verifier::external_body]
pub struct ExSqlError(rusqlite::Error);

/// `rusqlite::types::Value`: a value as `rusqlite` binds it to a parameter.
#[verifier::external_type_specification]
#[verifier::external_body]
pub struct ExSqlParam(rusqlite::types::Value);

/// `std::path::PathBuf`: the path of a file or directory.
#[verifier::external_type_specification]
#[verifier::external_body]
pub struct ExPathBuf(std::path::PathBuf);

/// A value to bind to a parameter of a statement.
#[derive(Debug, Clone, PartialEq, Eq)]
pub enum SqlParam {
    /// No value.
    Null,
    /// A whole number.
    Integer(i64),
    /// A text.
    Text(String),
    /// A string of bytes.
    Blob(Vec<u8>),
}

/// What a parameter holds.
pub enum SqlParamView {
    Null,
    Integer(i64),
    Text(Seq<char>),
    Blob(Seq<u8>),
}

impl View for SqlParam {
    type V = SqlParamView;

    open spec fn view(&self) -> SqlParamView {
        match *self {
            SqlParam::Null => SqlParamView::Null,
            SqlParam::Integer(i) => SqlParamView::Integer(i),
            SqlParam::Text(text) => SqlParamView::Text(text@),
            SqlParam::Blob(bytes) => SqlParamView::Blob(bytes@),
        }
    }
}

/// A value in a column of a row.
#[derive(Debug, Clone, PartialEq, Eq)]
pub enum SqlValue {
    /// No value.
    Null,
    /// A whole number.
    Integer(i64),
    /// A number with a fraction. No table of the store holds one, and its value is
    /// not kept.
    Real,
    /// A text.
    Text(String),
    /// A string of bytes.
    Blob(Vec<u8>),
}

/// `Connection::open`, on the path that `PathBuf::join` makes of `directory` and
/// `file_name`: opens the database file, and creates it where there is none.
#[verifier::external_body]
pub(crate) fn open_database(directory: &std::path::PathBuf, file_name: &str) -> (r: Result<
    rusqlite::Connection,
    rusqlite::Error,
>) {
    rusqlite::Connection::open(directory.join(file_name))
}

/// `Connection::transaction`: begins a deferred transaction, which is rolled back
/// when it is dropped.
#[verifier::external_body]
pub(crate) fn begin_transaction<'conn>(con: &'conn mut rusqlite::Connection) -> (r: Result<
    rusqlite::Transaction<'conn>,
    rusqlite::Error,
>) {
    con.transaction()
}

/// `Transaction::commit`: consumes and commits the transaction.
#[verifier::external_body]
pub(crate) fn commit_transaction(txn: rusqlite::Transaction<'_>) -> (r: Result<
    (),
    rusqlite::Error,
>) {
    txn.commit()
}

/// `Deref::deref` of a transaction: the connection that the transaction runs on.
#[verifier::external_body]
pub(crate) fn connection_of<'a>(txn: &'a rusqlite::Transaction<'_>) -> (r:
    &'a rusqlite::Connection) {
    txn
}

/// The `Value` of `rusqlite` that binds `value` to a parameter: the variant of the
/// same name, with the same content.
#[verifier::external_body]
pub(crate) fn to_param(value: &SqlParam) -> (r: rusqlite::types::Value) {
    match value {
        SqlParam::Null => rusqlite::types::Value::Null,
        SqlParam::Integer(i) => rusqlite::types::Value::Integer(*i),
        SqlParam::Text(text) => rusqlite::types::Value::Text(text.clone()),
        SqlParam::Blob(bytes) => rusqlite::types::Value::Blob(bytes.clone()),
    }
}

/// The values that bind `params` to the parameters of a statement, in order.
pub(crate) fn bind(params: &Vec<SqlParam>) -> (r: Vec<rusqlite::types::Value>)
    ensures
        r@.len() == params@.len(),
{
    let mut values: Vec<rusqlite::types::Value> = Vec::new();
    let mut i: usize = 0;
    while i < params.len()
        invariant
            i <= params.len(),
            values@.len() == i,
        decreases params.len() - i,
    {
        values.push(to_param(&params[i]));
        i = i + 1;
    }
    values
}

/// `Connection::execute`: runs one statement with its parameters bound in order. On
/// success the number is that of the rows that the statement changed, inserted or
/// deleted.
#[verifier::external_body]
pub(crate) fn execute(
    con: &rusqlite::Connection,
    sql: &str,
    params: &Vec<rusqlite::types::Value>,
) -> (r: Result<usize, rusqlite::Error>) {
    con.execute(sql, rusqlite::params_from_iter(params.iter()))
}

/// `Row::get_ref`, and `Row::get` for a text: column `index` of a row, as the variant
/// of the same name with the same content; of a `Real` only that it is one. A text that
/// is not UTF-8 and an index past the last column are errors.
#[verifier::external_body]
pub(crate) fn column_value(row: &rusqlite::Row<'_>, index: usize) -> (r: Result<
    SqlValue,
    rusqlite::Error,
>) {
    Ok(
        match row.get_ref(index)? {
            rusqlite::types::ValueRef::Null => SqlValue::Null,
            rusqlite::types::ValueRef::Integer(i) => SqlValue::Integer(i),
            rusqlite::types::ValueRef::Real(_) => SqlValue::Real,
            rusqlite::types::ValueRef::Text(_) => SqlValue::Text(row.get(index)?),
            rusqlite::types::ValueRef::Blob(bytes) => SqlValue::Blob(bytes.to_vec()),
        },
    )
}

/// The columns of a row, from the first to column `width`, the first error if one
/// cannot be read. Where no column is asked for, none is read, and the empty list comes
/// back.
pub(crate) fn read_row(row: &rusqlite::Row<'_>, width: usize) -> (r: Result<
    Vec<SqlValue>,
    rusqlite::Error,
>)
    ensures
        r matches Ok(values) ==> values@.len() == width,
        width == 0 ==> r is Ok,
{
    let mut values: Vec<SqlValue> = Vec::new();
    let mut i: usize = 0;
    while i < width
        invariant
            i <= width,
            values@.len() == i,
        decreases width - i,
    {
        match column_value(row, i) {
            Ok(value) => values.push(value),
            Err(e) => {
                return Err(e);
            },
        }
        i = i + 1;
    }
    Ok(values)
}

/// `Connection::prepare`, `Statement::column_count`, `Statement::query_map` and the
/// rows it yields: runs one query with its parameters bound in order, and reads every
/// column of every row that it gives, in the order in which the database gives them.
/// The first row that cannot be read fails the whole.
#[verifier::external_body]
pub(crate) fn query(
    con: &rusqlite::Connection,
    sql: &str,
    params: &Vec<rusqlite::types::Value>,
) -> (r: Result<Vec<Vec<SqlValue>>, rusqlite::Error>) {
    let mut stmt = con.prepare(sql)?;
    let width = stmt.column_count();
    let rows = stmt.query_map(rusqlite::params_from_iter(params.iter()), |row| {
        read_row(row, width)
    })?;
    rows.collect()
}

/// `Error::to_string`: the text of a fault of the database.
#[verifier::external_body]
pub(crate) fn error_text(e: &rusqlite::Error) -> (r: String) {
    e.to_string()
}

/// Whether a fault of the database says that another connection holds the database.
#[verifier::external_body]
pub(crate) fn error_is_busy(e: &rusqlite::Error) -> (r: bool) {
    matches!(
        e,
        rusqlite::Error::SqliteFailure(failure, _)
            if failure.code == rusqlite::ErrorCode::DatabaseBusy
    )
}

} // verus!
