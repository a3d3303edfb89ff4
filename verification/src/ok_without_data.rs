//! Success response values that carry no data payload.

use vstd::prelude::*;
use crate::ok_with_data::{InfoWithData, OkDataResponse, WarningWithData};

verus! {

/// An informational success response.
#[derive(Debug)]
pub struct Info {
    pub category: String,
    pub message: String,
}

/// A success response that carries a warning with its cause and source.
#[derive(Debug)]
pub struct Warning {
    pub category: String,
    pub message: String,
    pub cause: String,
    pub source: String,
}

/// A success response for the front end: either plain information or a
/// warning that still counts as success.
#[derive(Debug)]
pub enum OkResponse {
    INFO(Info),
    WARN(Warning),
}

impl OkResponse {
    /// Creates an informational success response.
    pub fn new_info(category: &str, message: &str) -> (r: Self)
        ensures
            r matches OkResponse::INFO(i)
                && i.category@ == category@
                && i.message@ == message@,
    {
        Self::INFO(Info { category: category.to_owned(), message: message.to_owned() })
    }

    /// Creates a warning success response.
    pub fn new_warning(category: &str, message: &str, cause: &str, source: &str) -> (r: Self)
        ensures
            r matches OkResponse::WARN(w)
                && w.category@ == category@
                && w.message@ == message@
                && w.cause@ == cause@
                && w.source@ == source@,
    {
        Self::WARN(
            Warning {
                category: category.to_owned(),
                message: message.to_owned(),
                cause: cause.to_owned(),
                source: source.to_owned(),
            },
        )
    }

    /// Attaches a data payload, turning this into an [`OkDataResponse`]
    /// with the same category, message, cause and source.
    pub fn add_data<T>(self, data: T) -> (r: OkDataResponse<T>)
        ensures
            (match self {
                OkResponse::INFO(i) => r matches OkDataResponse::INFOData(o)
                    && o.category == i.category
                    && o.message == i.message
                    && o.data == data,
                OkResponse::WARN(w) => r matches OkDataResponse::WARNData(o)
                    && o.category == w.category
                    && o.message == w.message
                    && o.data == data
                    && o.cause == w.cause
                    && o.source == w.source,
            }),
    {
        match self {
            Self::INFO(current) => OkDataResponse::INFOData(
                InfoWithData { category: current.category, message: current.message, data },
            ),
            Self::WARN(current) => OkDataResponse::WARNData(
                WarningWithData {
                    category: current.category,
                    message: current.message,
                    data,
                    cause: current.cause,
                    source: current.source,
                },
            ),
        }
    }
}

} // verus!
