//! The error the service returns when it rejects a request.

use vstd::prelude::*;
use vstd::string::*;
use crate::json::{object_fields, parse_object, find_string_field, string_field};

verus! {

/// A request rejected by the service: its error code and details.
#[derive(Clone, Debug, PartialEq, Eq)]
pub struct ApiError {
    pub error_code: String,
    pub details: String,
}

/// The error code and details that the fields hold, where both are strings.
pub open spec fn api_error_from_fields(fields: Seq<(Seq<char>, Seq<char>)>) -> Option<(Seq<char>, Seq<char>)> {
    match (string_field(fields, "errorCode"@), string_field(fields, "details"@)) {
        (Some(c), Some(d)) => Some((c, d)),
        _ => None,
    }
}

/// The error code and details written in `text`, where it is an object that
/// holds both as strings.
pub open spec fn api_error_model(text: Seq<char>) -> Option<(Seq<char>, Seq<char>)> {
    match object_fields(text) {
        Some(fields) => api_error_from_fields(fields),
        None => None,
    }
}

/// The text `(errorCode: <code>, details: <details>)`.
pub open spec fn api_error_message(code: Seq<char>, details: Seq<char>) -> Seq<char> {
    "(errorCode: "@ + code + ", details: "@ + details + ")"@
}

impl ApiError {
    /// Reads an error from the fields of an object.
    pub fn from_fields(fields: &Vec<(String, String)>) -> (r: Option<ApiError>)
        ensures
            match r {
                Some(e) => api_error_from_fields(fields.deep_view()) == Some((e.error_code@, e.details@)),
                None => api_error_from_fields(fields.deep_view()) is None,
            },
    {
        let error_code = find_string_field(fields, "errorCode");
        let details = find_string_field(fields, "details");
        match (error_code, details) {
            (Some(error_code), Some(details)) => Some(ApiError { error_code, details }),
            _ => None,
        }
    }

    /// Reads an error from a response body.
    pub fn from_json(text: &str) -> (r: Option<ApiError>)
        ensures
            match r {
                Some(e) => api_error_model(text@) == Some((e.error_code@, e.details@)),
                None => api_error_model(text@) is None,
            },
    {
        match parse_object(text) {
            Some(fields) => ApiError::from_fields(&fields),
            None => None,
        }
    }

    /// The error as text: `(errorCode: <code>, details: <details>)`.
    pub fn message(&self) -> (r: String)
        ensures
            r@ == api_error_message(self.error_code@, self.details@),
    {
        let r = String::from_str("(errorCode: ");
        let r = r.concat(self.error_code.as_str());
        let r = r.concat(", details: ");
        let r = r.concat(self.details.as_str());
        r.concat(")")
    }
}

} // verus!
