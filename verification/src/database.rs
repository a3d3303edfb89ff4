//! The trusted boundary to the embedded SQL engine, and the connection
//! opener.
//!
//! Every call into the engine goes through one of the wrappers here. The
//! engine's results depend on what is on disk, so the wrappers promise
//! nothing about the values that come back; the verified callers state
//! what holds of every outcome and hand each returned value to verified
//! code for validation.

use vstd::prelude::*;
use vstd::string::StringExecFns;
use crate::settings_error::SettingsError;
use crate::text::{ends_with, lower, to_ascii_lower};

verus! {

#[verifier::external_type_specification]
#[verifier::external_body]
pub struct ExConnection(rusqlite::Connection);

#[verifier::external_type_specification]
#[verifier::external_body]
pub struct ExSqlError(rusqlite::Error);

/// Relies on `rusqlite::Connection::open`: opens, creating it if absent,
/// the SQLite database file at the given path.
#[verifier::external_body]
fn open_sqlite_file(path: &str) -> (r: Result<rusqlite::Connection, rusqlite::Error>) {
    rusqlite::Connection::open(path)
}

/// Relies on `rusqlite::Connection::execute`: runs one parameterless SQL
/// statement and reports the number of changed rows.
#[verifier::external_body]
pub(crate) fn execute_sql(conn: &rusqlite::Connection, sql: &str) -> (r: Result<
    usize,
    rusqlite::Error,
>) {
    conn.execute(sql, ())
}

/// Relies on `rusqlite::Connection::execute`: runs one SQL statement with
/// four bound integer parameters and reports the number of changed rows.
#[verifier::external_body]
pub(crate) fn execute_sql_u8x4(
    conn: &rusqlite::Connection,
    sql: &str,
    a: u8,
    b: u8,
    c: u8,
    d: u8,
) -> (r: Result<usize, rusqlite::Error>) {
    conn.execute(sql, (a, b, c, d))
}

/// Relies on `rusqlite::Connection::query_row`: runs one parameterless
/// query and reads the first row as four integer columns; absent rows
/// come back as `Error::QueryReturnedNoRows`.
#[verifier::external_body]
pub(crate) fn query_row_u8x4(conn: &rusqlite::Connection, sql: &str) -> (r: Result<
    (u8, u8, u8, u8),
    rusqlite::Error,
>) {
    conn.query_row(sql, (), |row| Ok((row.get(0)?, row.get(1)?, row.get(2)?, row.get(3)?)))
}

/// Relies on `rusqlite::Connection::query_row`: runs one parameterless
/// query and reads the first row as a single integer column.
#[verifier::external_body]
pub(crate) fn query_row_i64(conn: &rusqlite::Connection, sql: &str) -> (r: Result<
    i64,
    rusqlite::Error,
>) {
    conn.query_row(sql, (), |row| row.get(0))
}

/// Relies on `rusqlite::Statement::query_map` over a prepared statement:
/// runs one parameterless query and reads every row as two text columns,
/// failing if any row fails to decode.
#[verifier::external_body]
pub(crate) fn query_name_type_rows(conn: &rusqlite::Connection, sql: &str) -> (r: Result<
    Vec<(String, String)>,
    rusqlite::Error,
>) {
    let mut stmt = conn.prepare(sql)?;
    let rows = stmt.query_map((), |row| Ok((row.get(0)?, row.get(1)?)))?;
    rows.collect()
}

/// Relies on `rusqlite::Error`'s variants: tells the absent-row outcome
/// of a single-row query apart from every other failure.
#[verifier::external_body]
pub(crate) fn error_is_no_rows(e: &rusqlite::Error) -> (r: bool) {
    matches!(e, rusqlite::Error::QueryReturnedNoRows)
}

/// Relies on `rusqlite::Error`'s display form: the failure as plain text.
#[verifier::external_body]
pub(crate) fn error_text(e: &rusqlite::Error) -> (r: String) {
    format!("{}", e)
}

/// The file name that stores a logical database: the name lower-cased,
/// with `.db` appended when it is not already the suffix.
pub open spec fn spec_db_filename(name: Seq<char>) -> Seq<char> {
    let low = lower(name);
    if low.len() >= ".db"@.len() && low.subrange(low.len() - ".db"@.len(), low.len() as int)
        == ".db"@ {
        low
    } else {
        low + ".db"@
    }
}

/// The full path of a logical database's file inside the database
/// directory.
pub open spec fn spec_db_path(dir: Seq<char>, name: Seq<char>) -> Seq<char> {
    dir + "/"@ + spec_db_filename(name)
}

/// Normalizes a logical database name to its file name.
pub fn db_filename(db_name: &str) -> (r: String)
    ensures
        r@ == spec_db_filename(db_name@),
{
    let mut f = to_ascii_lower(db_name);
    if !ends_with(f.as_str(), ".db") {
        f.append(".db");
    }
    f
}

/// Builds the full path of a logical database's file inside the database
/// directory.
pub fn db_path(db_dir: &str, db_name: &str) -> (r: String)
    ensures
        r@ == spec_db_path(db_dir@, db_name@),
{
    let name = db_filename(db_name);
    db_dir.to_owned().concat("/").concat(name.as_str())
}

/// Opens, creating it if absent, the SQLite database file at `path`.
///
/// The display name is carried into the error so the front end can say
/// which database failed to open.
pub fn open_database(path: &str, db_display_name: &str) -> (r: Result<
    rusqlite::Connection,
    SettingsError,
>)
    ensures
        r matches Err(e) ==> e matches SettingsError::ConnectionOpenFailed { db_display_name: n, cause: _ }
            && n@ == db_display_name@,
{
    match open_sqlite_file(path) {
        Ok(conn) => Ok(conn),
        Err(e) => Err(
            SettingsError::ConnectionOpenFailed {
                db_display_name: db_display_name.to_owned(),
                cause: error_text(&e),
            },
        ),
    }
}

/// Opens the named logical database inside the database directory,
/// creating the file if absent: the name is normalized to its file name
/// and the file lives directly in `db_dir`.
pub fn connect(db_dir: &str, db_display_name: &str, db_name: &str) -> (r: Result<
    rusqlite::Connection,
    SettingsError,
>)
    ensures
        r matches Err(e) ==> e matches SettingsError::ConnectionOpenFailed { db_display_name: n, cause: _ }
            && n@ == db_display_name@,
{
    let path = db_path(db_dir, db_name);
    open_database(path.as_str(), db_display_name)
}

} // verus!
