//! Persistence layer for a desktop application's user settings.
//!
//! The library keeps one small settings record (UI theme and three boolean
//! flags) in a single-row SQLite table. It validates values on the way in
//! and on the way out, initializes defaults on first use, and reports every
//! outcome through structured response values that a GUI front end can
//! display.

pub mod database;
pub mod err;
pub mod error_factory;
pub mod init;
pub mod ok_with_data;
pub mod ok_without_data;
pub mod renamed_error;
pub mod schema;
pub mod settings;
pub mod settings_error;
pub mod text;
pub mod toast;

pub use err::ErrorRepsonse;
pub use ok_with_data::OkDataResponse;
pub use ok_without_data::OkResponse;
pub use toast::{Toast, ToastType};
