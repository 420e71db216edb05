//! The uniform response envelope: a success flag with optional data and
//! message on the happy path, or a single error string on failure. Status
//! codes are chosen outside this crate.

use vstd::prelude::*;
use crate::errors::{AppError, message_of};

verus! {

/// Envelope for a successful outcome, carrying either a payload or a plain
/// message.
#[derive(Debug)]
pub struct JsonApiResponse<T> {
    pub success: bool,
    pub data: Option<T>,
    pub message: Option<String>,
}

impl<T> JsonApiResponse<T> {
    /// Wraps a payload, with no message.
    pub fn success(data: T) -> (r: Self)
        ensures
            r.success,
            r.data == Some(data),
            r.message is None,
    {
        JsonApiResponse { success: true, data: Some(data), message: None }
    }
}

impl JsonApiResponse<()> {
    /// Wraps a plain message, with no payload.
    pub fn with_message(message: &str) -> (r: Self)
        ensures
            r.success,
            r.data is None,
            r.message matches Some(m) && m@ == message@,
    {
        JsonApiResponse { success: true, data: None, message: Some(message.to_owned()) }
    }
}

/// Envelope for a failed outcome: a single human-readable error string,
/// never a store-native error object.
#[derive(Debug)]
pub struct ErrorJsonApiResponse {
    pub error: String,
}

impl ErrorJsonApiResponse {
    /// Wraps a plain error message.
    pub fn from_message(msg: &str) -> (r: Self)
        ensures
            r.error@ == msg@,
    {
        ErrorJsonApiResponse { error: msg.to_owned() }
    }

    /// Renders an error of the taxonomy into its envelope.
    pub fn from_app_error(e: &AppError) -> (r: Self)
        ensures
            r.error@ == message_of(*e),
    {
        ErrorJsonApiResponse { error: e.message() }
    }
}

} // verus!
