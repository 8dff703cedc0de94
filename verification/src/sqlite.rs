use crate::error::Failure;
use vstd::prelude::*;

verus! {

#[verifier::external_type_specification]
#[verifier::external_body]
pub struct ExConnection(rusqlite::Connection);

#[verifier::external_type_specification]
#[verifier::external_body]
pub struct ExSqlError(rusqlite::Error);

#[verifier::external_type_specification]
#[verifier::external_body]
pub struct ExRow<'stmt>(rusqlite::Row<'stmt>);

/// Opens the database at `path` with `rusqlite::Connection::open`, which
/// creates the file when it does not exist. Whether that succeeds is decided
/// by the file system, so nothing is promised of the result.
#[verifier::external_body]
pub(crate) fn open_database(path: &str) -> (opened: Result<rusqlite::Connection, rusqlite::Error>) {
    rusqlite::Connection::open(path)
}

/// Runs one statement with `rusqlite::Connection::execute`. The statement's
/// parameters are bound in order: first every text of `texts`, after them
/// every id of `ids`. On success the result is the number of rows that the
/// statement changed, as the database counted them; nothing is promised of
/// it, because it depends on what the database holds.
#[verifier::external_body]
pub(crate) fn execute_database_command(
    connection: &rusqlite::Connection,
    command: &str,
    texts: &Vec<String>,
    ids: &Vec<i32>,
) -> (changed: Result<usize, rusqlite::Error>) {
    let texts = texts.iter().map(|text| rusqlite::types::Value::Text(text.clone()));
    let ids = ids.iter().map(|id| rusqlite::types::Value::Integer(i64::from(*id)));
    connection.execute(command, rusqlite::params_from_iter(texts.chain(ids)))
}

/// Reads column `index` of a result row as a nullable text, with
/// `rusqlite::Row::get`. Null comes back as `None`; a column of another type
/// or an index past the last column is an error.
#[verifier::external_body]
pub(crate) fn column_text(row: &rusqlite::Row<'_>, index: usize) -> (cell: Result<
    Option<String>,
    rusqlite::Error,
>) {
    row.get::<usize, Option<String>>(index)
}

/// Reads column `index` of a result row as a nullable 32-bit integer, with
/// `rusqlite::Row::get`. Null comes back as `None`; a value outside `i32`, a
/// column of another type or an index past the last column is an error.
#[verifier::external_body]
pub(crate) fn column_id(row: &rusqlite::Row<'_>, index: usize) -> (cell: Result<
    Option<i32>,
    rusqlite::Error,
>) {
    row.get::<usize, Option<i32>>(index)
}

/// The first `count` columns of a result row, each as a nullable text.
///
/// The columns are read in order and the first one that cannot be read as a
/// text ends the reading with its error, so a row that is handed back has
/// exactly `count` columns. With a `count` of 0 no column is asked for and
/// the result is the empty row, whatever the database holds.
pub(crate) fn read_text_columns(row: &rusqlite::Row<'_>, count: usize) -> (cells: Result<
    Vec<Option<String>>,
    rusqlite::Error,
>)
    ensures
        cells matches Ok(read) ==> read.len() == count,
        count == 0 ==> (cells matches Ok(read) && read@ == Seq::<Option<String>>::empty()),
{
    let mut read: Vec<Option<String>> = Vec::new();
    let mut index: usize = 0;
    while index < count
        invariant
            index <= count,
            read.len() == index,
        decreases count - index,
    {
        match column_text(row, index) {
            Ok(cell) => {
                read.push(cell);
            },
            Err(error) => {
                return Err(error);
            },
        }
        index = index + 1;
    }
    Ok(read)
}

/// The first column of a result row as a nullable id.
pub(crate) fn read_id_column(row: &rusqlite::Row<'_>) -> (cell: Result<Option<i32>, rusqlite::Error>) {
    column_id(row, 0)
}

/// Runs a query whose one parameter is `id` with
/// `rusqlite::Connection::query_row` and reads the first `count` columns of
/// its first row as nullable texts. A query without rows is an error, and so
/// is a row from which `count` texts cannot be read; a row that is handed
/// back therefore has exactly `count` columns. Which row there is depends on
/// what the database holds.
#[verifier::external_body]
pub(crate) fn query_text_row(
    connection: &rusqlite::Connection,
    command: &str,
    id: i32,
    count: usize,
) -> (cells: Result<Vec<Option<String>>, rusqlite::Error>)
    ensures
        cells matches Ok(read) ==> read.len() == count,
{
    connection.query_row(command, [id], |row| read_text_columns(row, count))
}

/// Runs a query without parameters with `rusqlite::Connection::query_one`
/// and reads the first column of its only row as a nullable id. Nothing is
/// promised of the result: it depends on what the database holds.
#[verifier::external_body]
pub(crate) fn query_single_id(connection: &rusqlite::Connection, command: &str) -> (cell: Result<
    Option<i32>,
    rusqlite::Error,
>) {
    connection.query_one(command, [], |row| read_id_column(row))
}

/// Tells the variants of `rusqlite::Error` apart as far as the lifecycle
/// rules need: a query that found no row, a failure that the database
/// reports with the code of a violated constraint, and everything else.
#[verifier::external_body]
pub(crate) fn failure_of(error: &rusqlite::Error) -> (failure: Failure) {
    match error {
        rusqlite::Error::QueryReturnedNoRows => Failure::NoRows,
        rusqlite::Error::SqliteFailure(cause, _) => match cause.code {
            rusqlite::ErrorCode::ConstraintViolation => Failure::Constraint,
            _ => Failure::Other,
        },
        _ => Failure::Other,
    }
}

} // verus!
