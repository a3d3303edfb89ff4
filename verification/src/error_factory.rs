//! Shorthand constructor for database-layer error responses.

use vstd::prelude::*;
use vstd::string::StringExecFns;
use crate::err::ErrorRepsonse;

verus! {

/// Creates an error response in the `"Database"` category whose source path
/// is given relative to the database layer.
pub fn create_error(message: &str, details: &str, source: &str) -> (r: ErrorRepsonse)
    ensures
        r.category@ == "Database"@,
        r.message@ == message@,
        r.cause@ == details@,
        r.source@ == "rs_db::"@ + source@,
{
    ErrorRepsonse {
        category: "Database".to_owned(),
        message: message.to_owned(),
        cause: details.to_owned(),
        source: "rs_db::".to_owned().concat(source),
    }
}

} // verus!
