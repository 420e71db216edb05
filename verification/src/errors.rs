//! The closed error taxonomy shared by the conversion layer and the
//! persistence gateway, and its human-readable rendering.

use vstd::prelude::*;
use vstd::string::*;

verus! {

/// Every fallible operation of this crate reports one of these kinds;
/// store-native or parser-native errors never cross this boundary.
#[derive(Debug, PartialEq)]
pub enum AppError {
    /// The backing store reported a failure, or an embedded foreign
    /// identifier failed to decode during a conversion.
    DatabaseError(String),
    /// A supplied identifier string is not a well-formed hex identifier.
    InvalidId,
    /// No entity matches the given identifier.
    NotFound,
    /// A structured field failed validation (malformed date, or an update
    /// payload with no fields).
    ParseError(String),
    /// An invariant assumed unreachable was violated.
    InternalError,
}

/// The rendering of each error kind as the response boundary shows it.
pub open spec fn message_of(e: AppError) -> Seq<char> {
    match e {
        AppError::DatabaseError(m) => "Database error: "@ + m@,
        AppError::InvalidId => "Invalid ID format"@,
        AppError::NotFound => "Item not found"@,
        AppError::ParseError(m) => "Parse error: "@ + m@,
        AppError::InternalError => "Internal server error"@,
    }
}

impl AppError {
    /// The human-readable string for this error; this is what the response
    /// envelope carries to the client.
    pub fn message(&self) -> (r: String)
        ensures
            r@ == message_of(*self),
    {
        match self {
            AppError::DatabaseError(m) => {
                let mut s = String::from_str("Database error: ");
                s.append(m.as_str());
                s
            },
            AppError::InvalidId => String::from_str("Invalid ID format"),
            AppError::NotFound => String::from_str("Item not found"),
            AppError::ParseError(m) => {
                let mut s = String::from_str("Parse error: ");
                s.append(m.as_str());
                s
            },
            AppError::InternalError => String::from_str("Internal server error"),
        }
    }
}

} // verus!
