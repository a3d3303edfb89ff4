//! Structured error response values consumable by a GUI front end.

use vstd::prelude::*;

verus! {

/// Structured error response that a front end can parse and display.
///
/// Fields:
/// - `category`: the response category (for example `"Database"`)
/// - `message`: the main message to display
/// - `cause`: further details on what caused the error
/// - `source`: the path to where the error occurred
#[derive(Debug)]
pub struct ErrorRepsonse {
    pub category: String,
    pub message: String,
    pub cause: String,
    pub source: String,
}

impl ErrorRepsonse {
    /// Creates a new error response for the front end.
    pub fn new_error(category: &str, message: &str, cause: &str, source: &str) -> (r: Self)
        ensures
            r.category@ == category@,
            r.message@ == message@,
            r.cause@ == cause@,
            r.source@ == source@,
    {
        Self {
            category: category.to_owned(),
            message: message.to_owned(),
            cause: cause.to_owned(),
            source: source.to_owned(),
        }
    }
}

} // verus!
