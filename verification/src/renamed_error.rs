//! A minimal error value: a description and additional information.

use vstd::prelude::*;

verus! {

/// A flat error value for callers that need no category or source path.
///
/// Fields:
/// - `error`: main description of the error
/// - `info`: more information about the error
#[derive(Debug)]
pub struct RenamedError {
    pub error: String,
    pub info: String,
}

/// Creates a [`RenamedError`] from a description and additional information.
pub fn create_error(error: &str, info: &str) -> (r: RenamedError)
    ensures
        r.error@ == error@,
        r.info@ == info@,
{
    RenamedError { error: error.to_owned(), info: info.to_owned() }
}

} // verus!
