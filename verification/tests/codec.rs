//! Tests for parsing, the storage codec, and the error texts.

use settings_store::settings::{Settings, SettingsTable};
use settings_store::settings_error::{SettingsError, SettingsField, ValidationLayer};

#[test]
fn parse_is_case_insensitive() {
    let lower = Settings::parse_settings("dark", true, false, true).unwrap();
    let upper = Settings::parse_settings("DARK", true, false, true).unwrap();
    let mixed = Settings::parse_settings("Dark", true, false, true).unwrap();
    assert_eq!(lower, upper);
    assert_eq!(lower, mixed);
    assert_eq!(lower.theme(), "DARK");
}

#[test]
fn parse_canonicalizes_light() {
    let s = Settings::parse_settings("light", false, true, false).unwrap();
    assert_eq!(s.theme(), "LIGHT");
    assert!(!s.welcome_screen());
    assert!(s.db_notifs());
    assert!(!s.confirm_rename());
}

#[test]
fn parse_rejects_unknown_theme() {
    let r = Settings::parse_settings("blue", true, false, true);
    match r {
        Err(SettingsError::ValidationFailed { value, layer }) => {
            assert_eq!(value, "BLUE");
            assert_eq!(layer, ValidationLayer::Gui);
        }
        _ => panic!("expected a validation failure"),
    }
}

#[test]
fn parse_rejects_empty_theme() {
    assert!(matches!(
        Settings::parse_settings("", true, false, true),
        Err(SettingsError::ValidationFailed { .. })
    ));
}

#[test]
fn default_settings_values() {
    let s = Settings::default_settings();
    assert_eq!(s.theme(), "DARK");
    assert!(s.welcome_screen());
    assert!(!s.db_notifs());
    assert!(s.confirm_rename());
    assert_eq!(s, Settings::default());
}

#[test]
fn encode_dark_settings() {
    let s = Settings::parse_settings("DARK", true, false, true).unwrap();
    let t = SettingsTable::from_settings(&s).unwrap();
    assert_eq!(t, SettingsTable::new(0, 1, 0, 1));
}

#[test]
fn encode_light_settings() {
    let s = Settings::parse_settings("light", false, true, false).unwrap();
    let t = SettingsTable::from_settings(&s).unwrap();
    assert_eq!(t, SettingsTable::new(1, 0, 1, 0));
}

#[test]
fn decode_valid_rows() {
    let s = SettingsTable::new(0, 1, 0, 1).to_settings().unwrap();
    assert_eq!(s.theme(), "DARK");
    assert!(s.welcome_screen());
    assert!(!s.db_notifs());
    assert!(s.confirm_rename());

    let s = SettingsTable::new(1, 0, 1, 0).to_settings().unwrap();
    assert_eq!(s.theme(), "LIGHT");
    assert!(!s.welcome_screen());
    assert!(s.db_notifs());
    assert!(!s.confirm_rename());
}

#[test]
fn round_trip_all_valid_settings() {
    for theme in ["DARK", "LIGHT"] {
        for ws in [false, true] {
            for dn in [false, true] {
                for cr in [false, true] {
                    let s = Settings::parse_settings(theme, ws, dn, cr).unwrap();
                    let row = SettingsTable::from_settings(&s).unwrap();
                    let back = row.to_settings().unwrap();
                    assert_eq!(back, s);
                }
            }
        }
    }
}

#[test]
fn decode_rejects_corrupt_theme() {
    let r = SettingsTable::new(2, 0, 0, 0).to_settings();
    match r {
        Err(SettingsError::CorruptRow { field, value }) => {
            assert_eq!(field, SettingsField::Theme);
            assert_eq!(value, 2);
        }
        _ => panic!("expected a corrupt-row failure"),
    }
}

#[test]
fn decode_rejects_corrupt_flags() {
    assert!(matches!(
        SettingsTable::new(0, 2, 0, 0).to_settings(),
        Err(SettingsError::CorruptRow { field: SettingsField::WelcomeScreen, value: 2 })
    ));
    assert!(matches!(
        SettingsTable::new(0, 0, 7, 0).to_settings(),
        Err(SettingsError::CorruptRow { field: SettingsField::DbNotifs, value: 7 })
    ));
    assert!(matches!(
        SettingsTable::new(0, 0, 0, 255).to_settings(),
        Err(SettingsError::CorruptRow { field: SettingsField::ConfirmRename, value: 255 })
    ));
}

#[test]
fn decode_reports_first_corrupt_field() {
    assert!(matches!(
        SettingsTable::new(3, 9, 9, 9).to_settings(),
        Err(SettingsError::CorruptRow { field: SettingsField::Theme, value: 3 })
    ));
}

#[test]
fn validation_error_texts() {
    let e = Settings::parse_settings("blue", true, false, true).unwrap_err();
    assert_eq!(e.message(), "Invalid data was provided for 'Settings'");
    assert_eq!(e.details(), "'BLUE' is not a valid value for 'theme'");
}

#[test]
fn storage_validation_error_texts() {
    let e = SettingsError::ValidationFailed {
        value: "Dusk".to_string(),
        layer: ValidationLayer::Storage,
    };
    assert_eq!(
        e.message(),
        "Unable to convert 'Settings' data to write to the database"
    );
    assert_eq!(e.details(), "'Dusk' is not a valid 'theme' value");
}

#[test]
fn corrupt_row_error_texts() {
    let e = SettingsTable::new(2, 0, 0, 0).to_settings().unwrap_err();
    assert_eq!(
        e.message(),
        "Unable to parse the 'Settings' data from the database due to invalid data"
    );
    assert_eq!(
        e.details(),
        "The 'theme' value should be either 0 or 1, but found 2"
    );

    let e = SettingsTable::new(0, 200, 0, 0).to_settings().unwrap_err();
    assert_eq!(
        e.details(),
        "The 'welcome_screen' value should be either 0 or 1, but found 200"
    );

    let e = SettingsTable::new(0, 0, 42, 0).to_settings().unwrap_err();
    assert_eq!(
        e.details(),
        "The 'db_notifs' value should be either 0 or 1, but found 42"
    );
}

#[test]
fn error_converts_to_toast() {
    let e = Settings::parse_settings("blue", true, false, true).unwrap_err();
    let toast = e.to_toast();
    assert!(matches!(toast.toast_type, settings_store::toast::ToastType::ERROR));
    assert_eq!(toast.category, "Database");
    assert_eq!(toast.message, "Invalid data was provided for 'Settings'");
    assert_eq!(
        toast.details.as_deref(),
        Some("'BLUE' is not a valid value for 'theme'")
    );
}

#[test]
fn error_converts_to_error_response() {
    let e = Settings::parse_settings("blue", true, false, true).unwrap_err();
    let resp = e.to_error_response("settings_db::settings::Settings");
    assert_eq!(resp.category, "Database");
    assert_eq!(resp.message, "Invalid data was provided for 'Settings'");
    assert_eq!(resp.cause, "'BLUE' is not a valid value for 'theme'");
    assert_eq!(resp.source, "rs_db::settings_db::settings::Settings");
}
