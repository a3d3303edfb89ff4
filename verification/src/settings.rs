//! The settings record and its storage codec.
//!
//! [`Settings`] is the GUI-facing value: a canonical upper-case theme name
//! and three boolean flags. [`SettingsTable`] is the storage-facing row:
//! the same four fields encoded as small integers, `0` or `1` each, with
//! the theme stored as `0` for `DARK` and `1` for `LIGHT`. Conversion is
//! total from validated settings to the row and partial the other way:
//! any stored integer outside `{0, 1}` is a corrupt row.

use vstd::prelude::*;
use vstd::string::StrSliceExecFns;
use crate::database::{error_is_no_rows, error_text, execute_sql_u8x4, query_row_u8x4};
use crate::init::ensure_settings_table;
use crate::settings_error::{SettingsError, SettingsField, ValidationLayer};
use crate::text::{eq_ignore_ascii_case, str_eq, to_ascii_upper, upper};

verus! {

/// The mathematical value of a [`Settings`] record.
#[verifier::ext_equal]
pub ghost struct SettingsView {
    pub theme: Seq<char>,
    pub welcome_screen: bool,
    pub db_notifs: bool,
    pub confirm_rename: bool,
}

impl SettingsView {
    /// A well-formed settings value holds one of the two canonical theme
    /// names.
    pub open spec fn wf(self) -> bool {
        self.theme == "DARK"@ || self.theme == "LIGHT"@
    }
}

/// Whether a raw theme string is acceptable: equal to `DARK` or `LIGHT` up
/// to ASCII case.
pub open spec fn acceptable_theme(s: Seq<char>) -> bool {
    upper(s) == "DARK"@ || upper(s) == "LIGHT"@
}

/// Parsing a theme is insensitive to ASCII case: a theme string is
/// acceptable exactly when its uppercased form is, and both parse to the
/// same canonical name.
pub proof fn lemma_parse_case_insensitive(t: Seq<char>)
    ensures
        acceptable_theme(t) == acceptable_theme(upper(t)),
        upper(upper(t)) == upper(t),
{
    crate::text::lemma_upper_idempotent(t);
}

/// The GUI-facing settings record.
///
/// Fields are private; a value is created validated, through
/// [`Settings::parse_settings`] or [`Settings::default_settings`], and the
/// theme it holds is always canonicalized to upper case.
#[derive(Debug)]
pub struct Settings {
    theme: String,
    welcome_screen: bool,
    db_notifs: bool,
    confirm_rename: bool,
}

impl View for Settings {
    type V = SettingsView;

    closed spec fn view(&self) -> SettingsView {
        SettingsView {
            theme: self.theme@,
            welcome_screen: self.welcome_screen,
            db_notifs: self.db_notifs,
            confirm_rename: self.confirm_rename,
        }
    }
}

/// The two canonical theme names are fixed points of ASCII uppercasing,
/// and differ from each other.
pub proof fn lemma_canonical_themes()
    ensures
        upper("DARK"@) == "DARK"@,
        upper("LIGHT"@) == "LIGHT"@,
        "DARK"@ != "LIGHT"@,
{
    reveal_strlit("DARK");
    reveal_strlit("LIGHT");
    assert(upper("DARK"@) =~= "DARK"@);
    assert(upper("LIGHT"@) =~= "LIGHT"@);
}

impl Settings {
    /// Creates a settings record from already-validated parts.
    fn new(theme: String, welcome_screen: bool, db_notifs: bool, confirm_rename: bool) -> (r: Self)
        ensures
            r@ == (SettingsView { theme: theme@, welcome_screen, db_notifs, confirm_rename }),
    {
        Self { theme, welcome_screen, db_notifs, confirm_rename }
    }

    /// Creates the default settings record: dark theme, show the welcome
    /// screen, no database notifications, confirm renames.
    pub fn default_settings() -> (r: Self)
        ensures
            r@ == (SettingsView {
                theme: "DARK"@,
                welcome_screen: true,
                db_notifs: false,
                confirm_rename: true,
            }),
            r@.wf(),
    {
        Self {
            theme: "DARK".to_owned(),
            welcome_screen: true,
            db_notifs: false,
            confirm_rename: true,
        }
    }

    /// Creates a settings record from raw front-end data.
    ///
    /// The theme is matched case-insensitively against `DARK` and `LIGHT`
    /// and canonicalized to upper case; any other value is rejected with
    /// [`SettingsError::ValidationFailed`] naming the offending value in
    /// its uppercased form.
    pub fn parse_settings(theme: &str, welcome_screen: bool, db_notifs: bool, confirm_rename: bool)
        -> (r: Result<Self, SettingsError>)
        ensures
            acceptable_theme(theme@) <==> r is Ok,
            r matches Ok(s) ==> s@ == (SettingsView {
                theme: upper(theme@),
                welcome_screen,
                db_notifs,
                confirm_rename,
            }) && s@.wf(),
            r matches Err(e) ==> e matches SettingsError::ValidationFailed { value, layer }
                && value@ == upper(theme@) && layer == ValidationLayer::Gui,
    {
        proof {
            lemma_canonical_themes();
        }
        if eq_ignore_ascii_case(theme, "DARK") {
            Ok(Self::new("DARK".to_owned(), welcome_screen, db_notifs, confirm_rename))
        } else if eq_ignore_ascii_case(theme, "LIGHT") {
            Ok(Self::new("LIGHT".to_owned(), welcome_screen, db_notifs, confirm_rename))
        } else {
            Err(
                SettingsError::ValidationFailed {
                    value: to_ascii_upper(theme),
                    layer: ValidationLayer::Gui,
                },
            )
        }
    }

    /// Returns the canonical theme name, `"DARK"` or `"LIGHT"`.
    pub fn theme(&self) -> (r: &str)
        ensures
            r@ == self@.theme,
    {
        self.theme.as_str()
    }

    /// Returns whether the welcome screen is shown on startup.
    pub fn welcome_screen(&self) -> (r: bool)
        ensures
            r == self@.welcome_screen,
    {
        self.welcome_screen
    }

    /// Returns whether database notifications are shown.
    pub fn db_notifs(&self) -> (r: bool)
        ensures
            r == self@.db_notifs,
    {
        self.db_notifs
    }

    /// Returns whether the confirm-rename dialog is shown.
    pub fn confirm_rename(&self) -> (r: bool)
        ensures
            r == self@.confirm_rename,
    {
        self.confirm_rename
    }

    /// Writes this record to the database, replacing the singleton row.
    ///
    /// The table is created first when missing, and the record is
    /// validated before anything is written: a record whose theme is not
    /// canonical is rejected without touching the database.
    pub fn write(&self, conn: &rusqlite::Connection) -> (r: Result<(), SettingsError>)
        ensures
            self@.wf() ==> (r matches Err(e) ==> e matches SettingsError::WriteFailed {
                cause: _,
            }),
            !self@.wf() ==> (r matches Err(e) && e matches SettingsError::ValidationFailed {
                value,
                layer,
            } && value@ == self@.theme && layer == ValidationLayer::Storage),
    {
        let table = match SettingsTable::from_settings(self) {
            Ok(t) => t,
            Err(e) => {
                return Err(e);
            },
        };
        if let Err(e) = ensure_settings_table(conn) {
            return Err(SettingsError::WriteFailed { cause: error_text(&e) });
        }
        match execute_sql_u8x4(
            conn,
            "INSERT OR REPLACE INTO settings (id, theme, welcome_screen, db_notifs, confirm_rename) VALUES ('main', ?1, ?2, ?3, ?4);",
            table.theme,
            table.welcome_screen,
            table.db_notifs,
            table.confirm_rename,
        ) {
            Ok(_) => Ok(()),
            Err(e) => Err(SettingsError::WriteFailed { cause: error_text(&e) }),
        }
    }

    /// Handles a failed singleton-row query: an absent row is the first
    /// run, so the defaults are written and returned; every other failure
    /// is a read failure carrying the engine's report.
    fn read_fallback(conn: &rusqlite::Connection, no_rows: bool, cause: String) -> (r: Result<
        Self,
        SettingsError,
    >)
        ensures
            no_rows ==> (r matches Ok(s) ==> s@ == (SettingsView {
                theme: "DARK"@,
                welcome_screen: true,
                db_notifs: false,
                confirm_rename: true,
            })),
            no_rows ==> (r matches Err(e) ==> e matches SettingsError::WriteFailed { cause: _ }),
            !no_rows ==> (r matches Err(e) && e matches SettingsError::ReadFailed { cause: c }
                && c@ == cause@),
    {
        if no_rows {
            let defaults = Self::default_settings();
            match defaults.write(conn) {
                Ok(()) => Ok(defaults),
                Err(err) => Err(err),
            }
        } else {
            Err(SettingsError::ReadFailed { cause })
        }
    }

    /// Reads the settings record from the database.
    ///
    /// The table is created first when missing. When the singleton row is
    /// absent this is the first run: the defaults are written to the
    /// database and returned. A row whose fields lie outside `{0, 1}` is
    /// a corrupt row; any other query failure is a read failure.
    pub fn read(conn: &rusqlite::Connection) -> (r: Result<Self, SettingsError>)
        ensures
            r matches Ok(s) ==> s@.wf(),
            r matches Err(e) ==> e matches SettingsError::ReadFailed { cause: _ }
                || e matches SettingsError::WriteFailed { cause: _ }
                || e matches SettingsError::CorruptRow { field: _, value: _ },
            r matches Err(e) ==> (e matches SettingsError::CorruptRow { field: _, value } ==> value
                > 1),
    {
        if let Err(e) = ensure_settings_table(conn) {
            return Err(SettingsError::ReadFailed { cause: error_text(&e) });
        }
        match query_row_u8x4(
            conn,
            "SELECT theme, welcome_screen, db_notifs, confirm_rename FROM settings WHERE id = 'main';",
        ) {
            Ok((theme, welcome_screen, db_notifs, confirm_rename)) => {
                let table = SettingsTable::new(theme, welcome_screen, db_notifs, confirm_rename);
                table.to_settings()
            },
            Err(e) => Self::read_fallback(conn, error_is_no_rows(&e), error_text(&e)),
        }
    }
}

impl Default for Settings {
    /// The default settings record, the one written on first run.
    fn default() -> (r: Self)
        ensures
            r@ == (SettingsView {
                theme: "DARK"@,
                welcome_screen: true,
                db_notifs: false,
                confirm_rename: true,
            }),
    {
        Self::default_settings()
    }
}

impl PartialEq for Settings {
    fn eq(&self, other: &Self) -> (r: bool) {
        str_eq(self.theme.as_str(), other.theme.as_str()) && self.welcome_screen
            == other.welcome_screen && self.db_notifs == other.db_notifs && self.confirm_rename
            == other.confirm_rename
    }
}

impl vstd::std_specs::cmp::PartialEqSpecImpl for Settings {
    open spec fn obeys_eq_spec() -> bool {
        true
    }

    open spec fn eq_spec(&self, other: &Self) -> bool {
        self@ == other@
    }
}

/// The storage-facing settings row: each field a small integer that must
/// be `0` or `1` to be valid.
#[derive(Debug, Clone, Copy, PartialEq, Eq, Structural)]
pub struct SettingsTable {
    pub theme: u8,
    pub welcome_screen: u8,
    pub db_notifs: u8,
    pub confirm_rename: u8,
}

/// The row that encodes a well-formed settings value: `LIGHT` becomes `1`,
/// `DARK` becomes `0`, and each boolean becomes `1` for true, `0` for
/// false.
pub open spec fn encode_spec(v: SettingsView) -> SettingsTable {
    SettingsTable {
        theme: if v.theme == "LIGHT"@ { 1u8 } else { 0u8 },
        welcome_screen: if v.welcome_screen { 1u8 } else { 0u8 },
        db_notifs: if v.db_notifs { 1u8 } else { 0u8 },
        confirm_rename: if v.confirm_rename { 1u8 } else { 0u8 },
    }
}

/// The settings value a row decodes to, or `None` when any field lies
/// outside `{0, 1}`.
pub open spec fn decode_spec(t: SettingsTable) -> Option<SettingsView> {
    if t.theme <= 1 && t.welcome_screen <= 1 && t.db_notifs <= 1 && t.confirm_rename <= 1 {
        Some(SettingsView {
            theme: if t.theme == 1 { "LIGHT"@ } else { "DARK"@ },
            welcome_screen: t.welcome_screen == 1,
            db_notifs: t.db_notifs == 1,
            confirm_rename: t.confirm_rename == 1,
        })
    } else {
        None
    }
}

/// Decoding the row that encodes a well-formed settings value gives that
/// value back.
pub proof fn lemma_encode_decode_round_trip(v: SettingsView)
    requires
        v.wf(),
    ensures
        decode_spec(encode_spec(v)) == Some(v),
{
    lemma_canonical_themes();
    assert(decode_spec(encode_spec(v)) matches Some(w) && w =~= v);
}

impl SettingsTable {
    /// Creates a storage row from raw integers, without validation.
    pub fn new(theme: u8, welcome_screen: u8, db_notifs: u8, confirm_rename: u8) -> (r: Self)
        ensures
            r == (SettingsTable { theme, welcome_screen, db_notifs, confirm_rename }),
    {
        Self { theme, welcome_screen, db_notifs, confirm_rename }
    }

    /// Encodes a settings record as a storage row.
    ///
    /// Succeeds exactly on well-formed settings; a record whose theme is
    /// not canonical is rejected with a storage-layer
    /// [`SettingsError::ValidationFailed`] naming the theme it holds.
    pub fn from_settings(settings: &Settings) -> (r: Result<Self, SettingsError>)
        ensures
            settings@.wf() <==> r is Ok,
            r matches Ok(t) ==> t == encode_spec(settings@),
            r matches Err(e) ==> e matches SettingsError::ValidationFailed { value, layer }
                && value@ == settings@.theme && layer == ValidationLayer::Storage,
    {
        proof {
            lemma_canonical_themes();
        }
        let theme: u8 = if str_eq(settings.theme(), "DARK") {
            0
        } else if str_eq(settings.theme(), "LIGHT") {
            1
        } else {
            return Err(
                SettingsError::ValidationFailed {
                    value: settings.theme.clone(),
                    layer: ValidationLayer::Storage,
                },
            );
        };
        Ok(Self {
            theme,
            welcome_screen: if settings.welcome_screen { 1 } else { 0 },
            db_notifs: if settings.db_notifs { 1 } else { 0 },
            confirm_rename: if settings.confirm_rename { 1 } else { 0 },
        })
    }

    /// Decodes this storage row into a settings record.
    ///
    /// Succeeds exactly when every field is `0` or `1`; otherwise the
    /// first offending field, in storage order, is reported with
    /// [`SettingsError::CorruptRow`].
    pub fn to_settings(&self) -> (r: Result<Settings, SettingsError>)
        ensures
            decode_spec(*self) is Some <==> r is Ok,
            r matches Ok(s) ==> decode_spec(*self) == Some(s@) && s@.wf(),
            r matches Err(e) ==> e matches SettingsError::CorruptRow { field, value } && (if self.theme > 1 {
                field == SettingsField::Theme && value == self.theme
            } else if self.welcome_screen > 1 {
                field == SettingsField::WelcomeScreen && value == self.welcome_screen
            } else if self.db_notifs > 1 {
                field == SettingsField::DbNotifs && value == self.db_notifs
            } else {
                field == SettingsField::ConfirmRename && value == self.confirm_rename
            }),
    {
        if self.theme > 1 {
            return Err(SettingsError::CorruptRow { field: SettingsField::Theme, value: self.theme });
        }
        if self.welcome_screen > 1 {
            return Err(
                SettingsError::CorruptRow {
                    field: SettingsField::WelcomeScreen,
                    value: self.welcome_screen,
                },
            );
        }
        if self.db_notifs > 1 {
            return Err(
                SettingsError::CorruptRow { field: SettingsField::DbNotifs, value: self.db_notifs },
            );
        }
        if self.confirm_rename > 1 {
            return Err(
                SettingsError::CorruptRow {
                    field: SettingsField::ConfirmRename,
                    value: self.confirm_rename,
                },
            );
        }
        let theme: String = if self.theme == 1 {
            "LIGHT".to_owned()
        } else {
            "DARK".to_owned()
        };
        proof {
            lemma_canonical_themes();
        }
        Ok(
            Settings::new(
                theme,
                self.welcome_screen == 1,
                self.db_notifs == 1,
                self.confirm_rename == 1,
            ),
        )
    }
}

} // verus!
