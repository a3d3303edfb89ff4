//! Creation of the settings table.
//!
//! The store is self-initializing: reading and writing both make sure the
//! table exists first, so a fresh database reaches the documented first-run
//! state without a separate setup step.

use vstd::prelude::*;
use crate::database::{error_text, execute_sql};
use crate::settings_error::SettingsError;

verus! {

/// Creates the settings table when it does not exist yet: a text primary
/// key and the four integer-encoded settings columns.
pub(crate) fn ensure_settings_table(conn: &rusqlite::Connection) -> (r: Result<
    (),
    rusqlite::Error,
>) {
    match execute_sql(
        conn,
        "CREATE TABLE IF NOT EXISTS settings (id TEXT PRIMARY KEY, theme INTEGER NOT NULL, welcome_screen INTEGER NOT NULL, db_notifs INTEGER NOT NULL, confirm_rename INTEGER NOT NULL);",
    ) {
        Ok(_) => Ok(()),
        Err(e) => Err(e),
    }
}

/// Creates the settings table when it does not exist yet.
///
/// The statement is idempotent, so running this against an initialized
/// database changes nothing.
pub fn init(conn: &rusqlite::Connection) -> (r: Result<(), SettingsError>)
    ensures
        r matches Err(e) ==> e matches SettingsError::SchemaQueryFailed { cause: _ },
{
    match ensure_settings_table(conn) {
        Ok(()) => Ok(()),
        Err(e) => Err(SettingsError::SchemaQueryFailed { cause: error_text(&e) }),
    }
}

} // verus!
