//! Short-lived UI notification payloads ("toasts").

use vstd::prelude::*;

verus! {

/// Severity tag of a [`Toast`].
#[derive(Debug)]
pub enum ToastType {
    INFO,
    WARNING,
    ERROR,
}

/// A short-lived UI notification: a severity tag, a category, a message to
/// display, and optional details.
#[derive(Debug)]
pub struct Toast {
    pub toast_type: ToastType,
    pub category: String,
    pub message: String,
    pub details: Option<String>,
}

impl Toast {
    /// Creates a toast with the given severity, category, message and
    /// optional details.
    pub fn new(toast_type: ToastType, category: &str, description: &str, details: Option<&str>) -> (r: Self)
        ensures
            r.toast_type == toast_type,
            r.category@ == category@,
            r.message@ == description@,
            (match details {
                Some(d) => r.details matches Some(rd) && rd@ == d@,
                None => r.details is None,
            }),
    {
        Toast {
            toast_type,
            category: category.to_owned(),
            message: description.to_owned(),
            details: match details {
                Some(details) => Some(details.to_owned()),
                None => None,
            },
        }
    }

    /// Creates a toast with the `INFO` severity tag.
    pub fn new_info_toast(category: &str, description: &str, details: Option<&str>) -> (r: Self)
        ensures
            r.toast_type is INFO,
            r.category@ == category@,
            r.message@ == description@,
            (match details {
                Some(d) => r.details matches Some(rd) && rd@ == d@,
                None => r.details is None,
            }),
    {
        Toast::new(ToastType::INFO, category, description, details)
    }

    /// Creates a toast with the `WARNING` severity tag.
    pub fn new_warning_toast(category: &str, description: &str, details: Option<&str>) -> (r: Self)
        ensures
            r.toast_type is WARNING,
            r.category@ == category@,
            r.message@ == description@,
            (match details {
                Some(d) => r.details matches Some(rd) && rd@ == d@,
                None => r.details is None,
            }),
    {
        Toast::new(ToastType::WARNING, category, description, details)
    }

    /// Creates a toast with the `ERROR` severity tag.
    pub fn new_error_toast(category: &str, description: &str, details: Option<&str>) -> (r: Self)
        ensures
            r.toast_type is ERROR,
            r.category@ == category@,
            r.message@ == description@,
            (match details {
                Some(d) => r.details matches Some(rd) && rd@ == d@,
                None => r.details is None,
            }),
    {
        Toast::new(ToastType::ERROR, category, description, details)
    }

    /// Creates a one-element list holding a toast with the `ERROR` severity
    /// tag.
    pub fn new_error_toast_vec(category: &str, description: &str, details: Option<&str>) -> (r:
        Vec<Self>)
        ensures
            r@.len() == 1,
            r@[0].toast_type is ERROR,
            r@[0].category@ == category@,
            r@[0].message@ == description@,
            (match details {
                Some(d) => r@[0].details matches Some(rd) && rd@ == d@,
                None => r@[0].details is None,
            }),
    {
        let mut v: Vec<Toast> = Vec::new();
        v.push(Toast::new(ToastType::ERROR, category, description, details));
        v
    }
}

} // verus!
