//! Schema inspection: table existence, column listing and validation,
//! and dropping the settings table.

use vstd::prelude::*;
use crate::database::{error_text, execute_sql, query_name_type_rows, query_row_i64};
use crate::ok_without_data::OkResponse;
use crate::settings_error::SettingsError;
use crate::text::str_eq;

verus! {

/// Reads a schema-catalog count as an existence answer: the table exists
/// exactly when the catalog holds at least one entry for it.
pub fn table_count_found(n: i64) -> (r: bool)
    ensures
        r == (n > 0),
{
    n > 0
}

/// Whether the settings table exists in the schema catalog.
pub fn settings_table_exists(conn: &rusqlite::Connection) -> (r: Result<bool, SettingsError>)
    ensures
        r matches Err(e) ==> e matches SettingsError::SchemaQueryFailed { cause: _ },
{
    match query_row_i64(
        conn,
        "SELECT COUNT(*) FROM sqlite_master WHERE type = 'table' AND name = 'settings';",
    ) {
        Ok(n) => Ok(table_count_found(n)),
        Err(e) => Err(SettingsError::SchemaQueryFailed { cause: error_text(&e) }),
    }
}

/// Turns a table-existence answer into the listing precondition: absence
/// is exactly the [`SettingsError::TableMissing`] failure, naming the
/// settings database.
pub fn require_table(exists: bool) -> (r: Result<(), SettingsError>)
    ensures
        r is Ok <==> exists,
        r matches Err(e) ==> e matches SettingsError::TableMissing { db_display_name }
            && db_display_name@ == "Settings"@,
{
    if exists {
        Ok(())
    } else {
        Err(SettingsError::TableMissing { db_display_name: "Settings".to_owned() })
    }
}

/// Lists the column names and declared types of the settings table, in
/// table order.
///
/// Fails with [`SettingsError::TableMissing`] when the table is absent;
/// a listing in which any row fails to decode fails whole rather than
/// dropping the row.
pub fn get_columns(conn: &rusqlite::Connection) -> (r: Result<
    Vec<(String, String)>,
    SettingsError,
>)
    ensures
        r matches Err(e) ==> e matches SettingsError::TableMissing { db_display_name }
            && db_display_name@ == "Settings"@
            || e matches SettingsError::SchemaQueryFailed { cause: _ },
{
    let exists = match settings_table_exists(conn) {
        Ok(b) => b,
        Err(e) => {
            return Err(e);
        },
    };
    if let Err(e) = require_table(exists) {
        return Err(e);
    }
    match query_name_type_rows(conn, "SELECT name, type FROM pragma_table_info('settings');") {
        Ok(columns) => Ok(columns),
        Err(e) => Err(SettingsError::SchemaQueryFailed { cause: error_text(&e) }),
    }
}

/// The column layout the settings table is expected to have: names and
/// declared types, in table order.
pub open spec fn expected_columns() -> Seq<(Seq<char>, Seq<char>)> {
    seq![
        ("id"@, "TEXT"@),
        ("theme"@, "INTEGER"@),
        ("welcome_screen"@, "INTEGER"@),
        ("db_notifs"@, "INTEGER"@),
        ("confirm_rename"@, "INTEGER"@),
    ]
}

/// Whether a column listing is exactly the expected settings layout.
pub fn columns_match(columns: &Vec<(String, String)>) -> (r: bool)
    ensures
        r == (columns@.map_values(|c: (String, String)| (c.0@, c.1@)) == expected_columns()),
{
    let ghost m = columns@.map_values(|c: (String, String)| (c.0@, c.1@));
    if columns.len() != 5 {
        assert(m.len() != expected_columns().len());
        return false;
    }
    let ok = str_eq(columns[0].0.as_str(), "id") && str_eq(columns[0].1.as_str(), "TEXT")
        && str_eq(columns[1].0.as_str(), "theme") && str_eq(columns[1].1.as_str(), "INTEGER")
        && str_eq(columns[2].0.as_str(), "welcome_screen") && str_eq(
        columns[2].1.as_str(),
        "INTEGER",
    ) && str_eq(columns[3].0.as_str(), "db_notifs") && str_eq(columns[3].1.as_str(), "INTEGER")
        && str_eq(columns[4].0.as_str(), "confirm_rename") && str_eq(
        columns[4].1.as_str(),
        "INTEGER",
    );
    proof {
        assert(forall|j: int| 0 <= j < 5 ==> m[j] == (columns@[j].0@, columns@[j].1@));
        if ok {
            assert(m =~= expected_columns());
        } else {
            assert(m != expected_columns());
        }
    }
    ok
}

/// Whether the settings table has exactly the expected column layout.
pub fn validate_table_columns(conn: &rusqlite::Connection) -> (r: Result<bool, SettingsError>)
    ensures
        r matches Err(e) ==> e matches SettingsError::TableMissing { db_display_name }
            && db_display_name@ == "Settings"@
            || e matches SettingsError::SchemaQueryFailed { cause: _ },
{
    let columns = match get_columns(conn) {
        Ok(c) => c,
        Err(e) => {
            return Err(e);
        },
    };
    Ok(columns_match(&columns))
}

/// Drops the settings table if it exists; dropping an absent table
/// changes nothing.
pub fn drop_table(conn: &rusqlite::Connection) -> (r: Result<(), SettingsError>)
    ensures
        r matches Err(e) ==> e matches SettingsError::SchemaQueryFailed { cause: _ },
{
    match execute_sql(conn, "DROP TABLE IF EXISTS settings;") {
        Ok(_) => Ok(()),
        Err(e) => Err(SettingsError::SchemaQueryFailed { cause: error_text(&e) }),
    }
}

/// Inspects the settings database: checks whether the table exists and,
/// when it does, that its columns have the expected layout. Inspection
/// errors propagate; on success the response is always the plain
/// informational one. A front end that wants the column diagnostic calls
/// [`validate_table_columns`] itself.
pub fn initialize_settings_db(conn: &rusqlite::Connection) -> (r: Result<
    OkResponse,
    SettingsError,
>)
    ensures
        r matches Ok(resp) ==> resp matches OkResponse::INFO(i) && i.category@ == "Database"@
            && i.message@ == "The database has been initialized"@,
        r matches Err(e) ==> e matches SettingsError::TableMissing { db_display_name }
            && db_display_name@ == "Settings"@
            || e matches SettingsError::SchemaQueryFailed { cause: _ },
{
    let exists = match settings_table_exists(conn) {
        Ok(b) => b,
        Err(e) => {
            return Err(e);
        },
    };
    if exists {
        match validate_table_columns(conn) {
            Ok(_) => {},
            Err(e) => {
                return Err(e);
            },
        }
    }
    Ok(OkResponse::new_info("Database", "The database has been initialized"))
}

} // verus!
