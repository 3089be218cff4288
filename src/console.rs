//! The structured result handed back by the listing commands: a payload or an
//! error message, never an uncaught failure.

use vstd::prelude::*;

verus! {

#[verifier::external_type_specification]
#[verifier::external_body]
pub struct ExReqwestError(reqwest::Error);

/// Relies on `reqwest::Error`'s `Display`: the human-readable text of a request error.
#[verifier::external_body]
fn error_text(e: &reqwest::Error) -> String {
    e.to_string()
}

/// A command result: the payload on success, the error text on failure.
pub struct Rest<T> {
    pub data: Option<T>,
    pub error: Option<String>,
}

impl<T> Rest<T> {
    pub fn new(data: Option<T>, error: Option<String>) -> (r: Rest<T>)
        ensures
            r.data == data,
            r.error == error,
    {
        Rest { data, error }
    }

    /// The payload of a successful request, or the text of its error.
    pub fn from_result(result: Result<T, reqwest::Error>) -> (r: Rest<T>)
        ensures
            result matches Ok(d) ==> r.data == Some(d) && r.error is None,
            result is Err ==> r.data is None && r.error is Some,
    {
        match result {
            Ok(data) => Rest::new(Some(data), None),
            Err(err) => Rest::new(None, Some(error_text(&err))),
        }
    }
}

} // verus!
