//! Tests for the store operations against a real in-memory SQLite
//! database.

use settings_store::database::{connect, db_filename, db_path, open_database};
use settings_store::init::init;
use settings_store::schema::{
    columns_match, drop_table, get_columns, initialize_settings_db, require_table,
    settings_table_exists, table_count_found, validate_table_columns,
};
use settings_store::settings::Settings;
use settings_store::settings_error::{SettingsError, SettingsField};
use settings_store::ok_without_data::OkResponse;

fn fresh_db() -> rusqlite::Connection {
    open_database(":memory:", "Settings").unwrap()
}

#[test]
fn first_read_returns_defaults_and_creates_row() {
    let conn = fresh_db();
    let s = Settings::read(&conn).unwrap();
    assert_eq!(s.theme(), "DARK");
    assert!(s.welcome_screen());
    assert!(!s.db_notifs());
    assert!(s.confirm_rename());

    assert!(settings_table_exists(&conn).unwrap());
    let count: i64 = conn
        .query_row("SELECT COUNT(*) FROM settings;", (), |row| row.get(0))
        .unwrap();
    assert_eq!(count, 1);
    let id: String = conn
        .query_row("SELECT id FROM settings;", (), |row| row.get(0))
        .unwrap();
    assert_eq!(id, "main");
}

#[test]
fn write_then_read_returns_written_value() {
    let conn = fresh_db();
    let s = Settings::parse_settings("light", false, true, false).unwrap();
    s.write(&conn).unwrap();
    let back = Settings::read(&conn).unwrap();
    assert_eq!(back, s);
    assert_eq!(back.theme(), "LIGHT");
    assert!(!back.welcome_screen());
    assert!(back.db_notifs());
    assert!(!back.confirm_rename());
}

#[test]
fn write_replaces_singleton_row() {
    let conn = fresh_db();
    let first = Settings::parse_settings("LIGHT", true, true, true).unwrap();
    first.write(&conn).unwrap();
    let second = Settings::parse_settings("dark", false, false, false).unwrap();
    second.write(&conn).unwrap();

    let back = Settings::read(&conn).unwrap();
    assert_eq!(back, second);
    let count: i64 = conn
        .query_row("SELECT COUNT(*) FROM settings;", (), |row| row.get(0))
        .unwrap();
    assert_eq!(count, 1);
}

#[test]
fn read_is_idempotent() {
    let conn = fresh_db();
    let first = Settings::read(&conn).unwrap();
    let second = Settings::read(&conn).unwrap();
    assert_eq!(first, second);
}

#[test]
fn drop_table_then_exists_is_false_and_read_reinitializes() {
    let conn = fresh_db();
    let s = Settings::parse_settings("light", false, true, false).unwrap();
    s.write(&conn).unwrap();
    assert!(settings_table_exists(&conn).unwrap());

    drop_table(&conn).unwrap();
    assert!(!settings_table_exists(&conn).unwrap());

    let back = Settings::read(&conn).unwrap();
    assert_eq!(back, Settings::default_settings());
    assert!(settings_table_exists(&conn).unwrap());
}

#[test]
fn drop_table_is_idempotent() {
    let conn = fresh_db();
    drop_table(&conn).unwrap();
    drop_table(&conn).unwrap();
    assert!(!settings_table_exists(&conn).unwrap());
}

#[test]
fn read_rejects_corrupt_stored_theme() {
    let conn = fresh_db();
    init(&conn).unwrap();
    conn.execute(
        "INSERT INTO settings (id, theme, welcome_screen, db_notifs, confirm_rename) VALUES ('main', 2, 0, 0, 0);",
        (),
    )
    .unwrap();
    let r = Settings::read(&conn);
    assert!(matches!(
        r,
        Err(SettingsError::CorruptRow { field: SettingsField::Theme, value: 2 })
    ));
}

#[test]
fn read_rejects_corrupt_stored_flag() {
    let conn = fresh_db();
    init(&conn).unwrap();
    conn.execute(
        "INSERT INTO settings (id, theme, welcome_screen, db_notifs, confirm_rename) VALUES ('main', 0, 0, 0, 9);",
        (),
    )
    .unwrap();
    assert!(matches!(
        Settings::read(&conn),
        Err(SettingsError::CorruptRow { field: SettingsField::ConfirmRename, value: 9 })
    ));
}

#[test]
fn init_creates_expected_columns() {
    let conn = fresh_db();
    init(&conn).unwrap();
    assert!(settings_table_exists(&conn).unwrap());
    let columns = get_columns(&conn).unwrap();
    let names: Vec<&str> = columns.iter().map(|c| c.0.as_str()).collect();
    assert_eq!(
        names,
        ["id", "theme", "welcome_screen", "db_notifs", "confirm_rename"]
    );
    assert!(columns_match(&columns));
}

#[test]
fn init_is_idempotent() {
    let conn = fresh_db();
    init(&conn).unwrap();
    let s = Settings::parse_settings("light", true, true, true).unwrap();
    s.write(&conn).unwrap();
    init(&conn).unwrap();
    assert_eq!(Settings::read(&conn).unwrap(), s);
}

#[test]
fn get_columns_without_table_is_table_missing() {
    let conn = fresh_db();
    let r = get_columns(&conn);
    match r {
        Err(SettingsError::TableMissing { db_display_name }) => {
            assert_eq!(db_display_name, "Settings");
        }
        _ => panic!("expected a table-missing failure"),
    }
}

#[test]
fn table_missing_error_texts() {
    let conn = fresh_db();
    let e = get_columns(&conn).unwrap_err();
    assert_eq!(e.message(), "Could not read the 'Settings' database");
    assert_eq!(e.details(), "The 'Settings' database does not exist");
}

#[test]
fn columns_match_rejects_wrong_layout() {
    let columns = vec![
        ("id".to_string(), "TEXT".to_string()),
        ("theme".to_string(), "TEXT".to_string()),
        ("welcome_screen".to_string(), "INTEGER".to_string()),
        ("db_notifs".to_string(), "INTEGER".to_string()),
        ("confirm_rename".to_string(), "INTEGER".to_string()),
    ];
    assert!(!columns_match(&columns));
    assert!(!columns_match(&Vec::new()));
}

#[test]
fn initialize_reports_info_on_fresh_database() {
    let conn = fresh_db();
    let resp = initialize_settings_db(&conn).unwrap();
    match resp {
        OkResponse::INFO(i) => {
            assert_eq!(i.category, "Database");
            assert_eq!(i.message, "The database has been initialized");
        }
        OkResponse::WARN(_) => panic!("expected an informational response"),
    }
}

#[test]
fn initialize_reports_info_on_valid_table() {
    let conn = fresh_db();
    init(&conn).unwrap();
    assert!(matches!(
        initialize_settings_db(&conn).unwrap(),
        OkResponse::INFO(_)
    ));
}

#[test]
fn initialize_reports_info_even_on_unexpected_columns() {
    let conn = fresh_db();
    conn.execute(
        "CREATE TABLE settings (id TEXT PRIMARY KEY, theme TEXT NOT NULL, show_welcome_screen INTEGER NOT NULL);",
        (),
    )
    .unwrap();
    match initialize_settings_db(&conn).unwrap() {
        OkResponse::INFO(i) => {
            assert_eq!(i.category, "Database");
            assert_eq!(i.message, "The database has been initialized");
        }
        OkResponse::WARN(_) => panic!("expected an informational response"),
    }
    assert!(!validate_table_columns(&conn).unwrap());
}

#[test]
fn table_count_decides_existence() {
    assert!(!table_count_found(0));
    assert!(!table_count_found(-1));
    assert!(table_count_found(1));
    assert!(table_count_found(5));
}

#[test]
fn require_table_decides_the_listing() {
    assert!(require_table(true).is_ok());
    match require_table(false) {
        Err(SettingsError::TableMissing { db_display_name }) => {
            assert_eq!(db_display_name, "Settings");
        }
        _ => panic!("expected a table-missing failure"),
    }
}

#[test]
fn validate_table_columns_accepts_created_table() {
    let conn = fresh_db();
    init(&conn).unwrap();
    assert!(validate_table_columns(&conn).unwrap());
}

#[test]
fn db_filename_normalizes_names() {
    assert_eq!(db_filename("Settings"), "settings.db");
    assert_eq!(db_filename("settings"), "settings.db");
    assert_eq!(db_filename("data.db"), "data.db");
    assert_eq!(db_filename("MyDB"), "mydb.db");
    assert_eq!(db_filename(""), ".db");
}

#[test]
fn db_path_joins_directory_and_file() {
    assert_eq!(db_path("/tmp/app", "Settings"), "/tmp/app/settings.db");
    assert_eq!(db_path(".", "archive.db"), "./archive.db");
}

#[test]
fn connect_fails_in_missing_directory() {
    let r = connect("/nonexistent_dir_for_settings_store_tests/db", "Settings", "settings");
    match r {
        Err(SettingsError::ConnectionOpenFailed { db_display_name, cause }) => {
            assert_eq!(db_display_name, "Settings");
            assert!(!cause.is_empty());
        }
        _ => panic!("expected the connection to fail with an open error"),
    }
}

#[test]
fn connection_open_failed_error_message() {
    let e = connect("/nonexistent_dir_for_settings_store_tests/db", "Settings", "settings")
        .unwrap_err();
    assert_eq!(e.message(), "Unable to open the 'Settings' database");
}
