//! The error taxonomy of the settings store.
//!
//! Every failure of the store is one of these kinds, carrying the underlying
//! cause as plain text where one exists. The kinds convert uniformly into
//! the response and toast envelopes that the front end consumes.

use vstd::prelude::*;
use vstd::string::StringExecFns;
use crate::err::ErrorRepsonse;
use crate::error_factory::create_error;
use crate::text::u8_decimal;
use crate::text::u8_to_decimal;
use crate::toast::Toast;

verus! {

/// A column of the stored settings row.
#[derive(Debug, Clone, Copy, PartialEq, Eq, Structural)]
pub enum SettingsField {
    Theme,
    WelcomeScreen,
    DbNotifs,
    ConfirmRename,
}

impl SettingsField {
    /// The column name of this field in the settings table.
    pub open spec fn spec_name(self) -> Seq<char> {
        match self {
            SettingsField::Theme => "theme"@,
            SettingsField::WelcomeScreen => "welcome_screen"@,
            SettingsField::DbNotifs => "db_notifs"@,
            SettingsField::ConfirmRename => "confirm_rename"@,
        }
    }

    /// Returns the column name of this field in the settings table.
    pub fn name(&self) -> (r: &'static str)
        ensures
            r@ == self.spec_name(),
    {
        match self {
            SettingsField::Theme => "theme",
            SettingsField::WelcomeScreen => "welcome_screen",
            SettingsField::DbNotifs => "db_notifs",
            SettingsField::ConfirmRename => "confirm_rename",
        }
    }
}

/// The layer at which a theme value failed validation: raw front-end data
/// rejected while parsing, or an already-constructed record rejected while
/// encoding it for storage. The two layers word their reports differently.
#[derive(Debug, Clone, Copy, PartialEq, Eq, Structural)]
pub enum ValidationLayer {
    Gui,
    Storage,
}

/// Everything that can go wrong in the settings store.
///
/// - `DirectoryUnavailable`: the per-user application-data directory could
///   not be resolved.
/// - `DirectoryCreateFailed`: creating the database directory failed.
/// - `ConnectionOpenFailed`: opening the database file failed.
/// - `SchemaQueryFailed`: a statically written schema statement failed to
///   run; treated as a developer error.
/// - `TableMissing`: the settings table does not exist where it was
///   required to.
/// - `ValidationFailed`: a theme value outside `DARK`/`LIGHT` was supplied,
///   at the named layer.
/// - `CorruptRow`: a stored field decoded to something other than 0 or 1.
/// - `ReadFailed`: reading the settings row failed.
/// - `WriteFailed`: writing the settings row failed.
#[derive(Debug)]
#[allow(inconsistent_fields)]
pub enum SettingsError {
    DirectoryUnavailable,
    DirectoryCreateFailed { cause: String },
    ConnectionOpenFailed { db_display_name: String, cause: String },
    SchemaQueryFailed { cause: String },
    TableMissing { db_display_name: String },
    ValidationFailed { value: String, layer: ValidationLayer },
    CorruptRow { field: SettingsField, value: u8 },
    ReadFailed { cause: String },
    WriteFailed { cause: String },
}

impl SettingsError {
    /// The human-readable message of this error.
    pub open spec fn spec_message(self) -> Seq<char> {
        match self {
            SettingsError::DirectoryUnavailable => "Could not access the database directory"@,
            SettingsError::DirectoryCreateFailed { .. } => "Could not access the database directory"@,
            SettingsError::ConnectionOpenFailed { db_display_name, .. } => "Unable to open the '"@
                + db_display_name@ + "' database"@,
            SettingsError::SchemaQueryFailed { .. } => "DEVELOPER ERROR: Invalid database query"@,
            SettingsError::TableMissing { db_display_name } => "Could not read the '"@
                + db_display_name@ + "' database"@,
            SettingsError::ValidationFailed { layer: ValidationLayer::Gui, .. } =>
                "Invalid data was provided for 'Settings'"@,
            SettingsError::ValidationFailed { layer: ValidationLayer::Storage, .. } =>
                "Unable to convert 'Settings' data to write to the database"@,
            SettingsError::CorruptRow { .. } =>
                "Unable to parse the 'Settings' data from the database due to invalid data"@,
            SettingsError::ReadFailed { .. } => "Unable to read values from the 'Settings' database"@,
            SettingsError::WriteFailed { .. } => "Could not write 'Settings' data to the database"@,
        }
    }

    /// The detail text of this error: the underlying cause where one
    /// exists, otherwise a fixed description.
    pub open spec fn spec_details(self) -> Seq<char> {
        match self {
            SettingsError::DirectoryUnavailable => "The data directory path was not found"@,
            SettingsError::DirectoryCreateFailed { cause } => cause@,
            SettingsError::ConnectionOpenFailed { cause, .. } => cause@,
            SettingsError::SchemaQueryFailed { cause } => cause@,
            SettingsError::TableMissing { db_display_name } => "The '"@ + db_display_name@
                + "' database does not exist"@,
            SettingsError::ValidationFailed { value, layer: ValidationLayer::Gui } => "'"@ + value@
                + "' is not a valid value for 'theme'"@,
            SettingsError::ValidationFailed { value, layer: ValidationLayer::Storage } => "'"@
                + value@ + "' is not a valid 'theme' value"@,
            SettingsError::CorruptRow { field, value } => "The '"@ + field.spec_name()
                + "' value should be either 0 or 1, but found "@ + u8_decimal(value),
            SettingsError::ReadFailed { cause } => cause@,
            SettingsError::WriteFailed { cause } => cause@,
        }
    }

    /// Returns the human-readable message of this error.
    pub fn message(&self) -> (r: String)
        ensures
            r@ == self.spec_message(),
    {
        match self {
            SettingsError::DirectoryUnavailable => "Could not access the database directory".to_owned(),
            SettingsError::DirectoryCreateFailed { .. } => "Could not access the database directory".to_owned(),
            SettingsError::ConnectionOpenFailed { db_display_name, .. } => "Unable to open the '"
                .to_owned()
                .concat(db_display_name.as_str())
                .concat("' database"),
            SettingsError::SchemaQueryFailed { .. } => "DEVELOPER ERROR: Invalid database query".to_owned(),
            SettingsError::TableMissing { db_display_name } => "Could not read the '"
                .to_owned()
                .concat(db_display_name.as_str())
                .concat("' database"),
            SettingsError::ValidationFailed { layer: ValidationLayer::Gui, .. } =>
                "Invalid data was provided for 'Settings'".to_owned(),
            SettingsError::ValidationFailed { layer: ValidationLayer::Storage, .. } =>
                "Unable to convert 'Settings' data to write to the database".to_owned(),
            SettingsError::CorruptRow { .. } =>
                "Unable to parse the 'Settings' data from the database due to invalid data".to_owned(),
            SettingsError::ReadFailed { .. } => "Unable to read values from the 'Settings' database".to_owned(),
            SettingsError::WriteFailed { .. } => "Could not write 'Settings' data to the database".to_owned(),
        }
    }

    /// Returns the detail text of this error.
    pub fn details(&self) -> (r: String)
        ensures
            r@ == self.spec_details(),
    {
        match self {
            SettingsError::DirectoryUnavailable => "The data directory path was not found".to_owned(),
            SettingsError::DirectoryCreateFailed { cause } => cause.clone(),
            SettingsError::ConnectionOpenFailed { cause, .. } => cause.clone(),
            SettingsError::SchemaQueryFailed { cause } => cause.clone(),
            SettingsError::TableMissing { db_display_name } => "The '"
                .to_owned()
                .concat(db_display_name.as_str())
                .concat("' database does not exist"),
            SettingsError::ValidationFailed { value, layer: ValidationLayer::Gui } => "'"
                .to_owned()
                .concat(value.as_str())
                .concat("' is not a valid value for 'theme'"),
            SettingsError::ValidationFailed { value, layer: ValidationLayer::Storage } => "'"
                .to_owned()
                .concat(value.as_str())
                .concat("' is not a valid 'theme' value"),
            SettingsError::CorruptRow { field, value } => "The '"
                .to_owned()
                .concat(field.name())
                .concat("' value should be either 0 or 1, but found ")
                .concat(u8_to_decimal(*value).as_str()),
            SettingsError::ReadFailed { cause } => cause.clone(),
            SettingsError::WriteFailed { cause } => cause.clone(),
        }
    }

    /// Converts this error into an error toast in the `"Database"`
    /// category, with the message as the description and the details
    /// attached.
    pub fn to_toast(&self) -> (r: Toast)
        ensures
            r.toast_type is ERROR,
            r.category@ == "Database"@,
            r.message@ == self.spec_message(),
            r.details matches Some(d) && d@ == self.spec_details(),
    {
        let message = self.message();
        let details = self.details();
        Toast::new_error_toast("Database", message.as_str(), Some(details.as_str()))
    }

    /// Converts this error into an error response in the `"Database"`
    /// category, with the given source path relative to the database layer.
    pub fn to_error_response(&self, source: &str) -> (r: ErrorRepsonse)
        ensures
            r.category@ == "Database"@,
            r.message@ == self.spec_message(),
            r.cause@ == self.spec_details(),
            r.source@ == "rs_db::"@ + source@,
    {
        let message = self.message();
        let details = self.details();
        create_error(message.as_str(), details.as_str(), source)
    }
}

} // verus!
