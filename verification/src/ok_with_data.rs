//! Success response values that carry a data payload.

use vstd::prelude::*;
use crate::ok_without_data;

verus! {

/// An informational success response with a data payload.
#[derive(Debug)]
pub struct InfoWithData<T> {
    pub category: String,
    pub message: String,
    pub data: T,
}

/// A warning success response with a data payload, its cause and source.
#[derive(Debug)]
pub struct WarningWithData<T> {
    pub category: String,
    pub message: String,
    pub data: T,
    pub cause: String,
    pub source: String,
}

/// A success response for the front end that carries data: either plain
/// information or a warning that still counts as success.
#[derive(Debug)]
pub enum OkDataResponse<T> {
    INFOData(InfoWithData<T>),
    WARNData(WarningWithData<T>),
}

impl<T> OkDataResponse<T> {
    /// Creates an informational success response with data.
    pub fn new_info(category: &str, message: &str, data: T) -> (r: Self)
        ensures
            r matches OkDataResponse::INFOData(i)
                && i.category@ == category@
                && i.message@ == message@
                && i.data == data,
    {
        Self::INFOData(
            InfoWithData { category: category.to_owned(), message: message.to_owned(), data },
        )
    }

    /// Creates a warning success response with data.
    pub fn new_warning(category: &str, message: &str, data: T, cause: &str, source: &str) -> (r:
        Self)
        ensures
            r matches OkDataResponse::WARNData(w)
                && w.category@ == category@
                && w.message@ == message@
                && w.data == data
                && w.cause@ == cause@
                && w.source@ == source@,
    {
        Self::WARNData(
            WarningWithData {
                category: category.to_owned(),
                message: message.to_owned(),
                data,
                cause: cause.to_owned(),
                source: source.to_owned(),
            },
        )
    }

    /// Discards the data payload, keeping the category, message, cause and
    /// source of the response.
    pub fn drop_data(self) -> (r: ok_without_data::OkResponse)
        ensures
            (match self {
                OkDataResponse::INFOData(i) => r matches ok_without_data::OkResponse::INFO(o)
                    && o.category == i.category
                    && o.message == i.message,
                OkDataResponse::WARNData(w) => r matches ok_without_data::OkResponse::WARN(o)
                    && o.category == w.category
                    && o.message == w.message
                    && o.cause == w.cause
                    && o.source == w.source,
            }),
    {
        match self {
            Self::INFOData(current) => ok_without_data::OkResponse::INFO(
                ok_without_data::Info { category: current.category, message: current.message },
            ),
            Self::WARNData(current) => ok_without_data::OkResponse::WARN(
                ok_without_data::Warning {
                    category: current.category,
                    message: current.message,
                    cause: current.cause,
                    source: current.source,
                },
            ),
        }
    }
}

} // verus!
