//! Decision logic of the persistence gateway, factored out of the backing
//! store driver: how each store outcome is translated into the uniform error
//! taxonomy. The driver performs the I/O and hands the outcome here; these
//! functions decide what the caller is told.

use vstd::prelude::*;
use vstd::string::*;
use crate::errors::AppError;
use crate::oid::{EntityId, hex_of};

verus! {

/// What an insert acknowledged: the identifier echoed back as an object
/// identifier, or anything else, carried as its textual rendering.
#[derive(Debug)]
pub enum InsertAck {
    ObjectIdAck,
    Other(String),
}

/// Decides a create outcome: the entity is handed back unchanged when the
/// store acknowledged an object identifier; any other acknowledgment is a
/// store failure, even though the identifier was assigned by the conversion
/// layer — an odd acknowledgment means the acknowledgment layer misbehaved.
pub fn create_outcome<T>(entity: T, ack: InsertAck, label: &str) -> (r: Result<T, AppError>)
    ensures
        ack matches InsertAck::ObjectIdAck ==> (r matches Ok(t) && t == entity),
        ack matches InsertAck::Other(s) ==> (r matches Err(AppError::DatabaseError(m))
            && m@ == "Failed to Create new "@ + label@ + ": "@ + s@),
{
    match ack {
        InsertAck::ObjectIdAck => Ok(entity),
        InsertAck::Other(s) => {
            let mut m = String::from_str("Failed to Create new ");
            m.append(label);
            m.append(": ");
            m.append(s.as_str());
            Err(AppError::DatabaseError(m))
        },
    }
}

/// Wraps a failure the backing cursor reported while reading all documents;
/// partial results are discarded by the caller, not returned.
pub fn cursor_error(label: &str, detail: &str) -> (r: AppError)
    ensures
        r matches AppError::DatabaseError(m) && m@ == "Error reading "@ + label@
            + " entries from DB: "@ + detail@,
{
    let mut m = String::from_str("Error reading ");
    m.append(label);
    m.append(" entries from DB: ");
    m.append(detail);
    AppError::DatabaseError(m)
}

/// Decides a single-document lookup outcome: the matching document, or
/// `NotFound` when the store matched nothing.
pub fn find_outcome<T>(found: Option<T>) -> (r: Result<T, AppError>)
    ensures
        found matches Some(t) ==> (r matches Ok(o) && o == t),
        found is None ==> (r matches Err(e) && e == AppError::NotFound),
{
    match found {
        Some(t) => Ok(t),
        None => Err(AppError::NotFound),
    }
}

/// Decides an update outcome: any store-reported outcome without an error is
/// success carrying the canonical hex identifier, even when no document
/// matched — this layer performs no existence check; a store error becomes
/// `DatabaseError`.
pub fn update_outcome(id: &EntityId, error: Option<String>, label: &str) -> (r: Result<
    String,
    AppError,
>)
    ensures
        error is None ==> (r matches Ok(h) && h@ == hex_of(id@)),
        error matches Some(d) ==> (r matches Err(AppError::DatabaseError(m))
            && m@ == "Failed to Update "@ + label@ + ": "@ + d@),
{
    match error {
        None => Ok(id.to_hex()),
        Some(d) => {
            let mut m = String::from_str("Failed to Update ");
            m.append(label);
            m.append(": ");
            m.append(d.as_str());
            Err(AppError::DatabaseError(m))
        },
    }
}

/// Decides a delete outcome from the removal count the store reported: at
/// least one removal is success carrying the canonical hex identifier, zero
/// is `NotFound`, a negative count cannot happen and is reported as
/// `InternalError` defensively, and a store error becomes `DatabaseError`.
pub fn delete_outcome(id: &EntityId, outcome: Result<i64, String>, label: &str) -> (r: Result<
    String,
    AppError,
>)
    ensures
        (match outcome {
            Ok(c) => if c >= 1 {
                r matches Ok(h) && h@ == hex_of(id@)
            } else if c == 0 {
                r matches Err(e) && e == AppError::NotFound
            } else {
                r matches Err(e) && e == AppError::InternalError
            },
            Err(d) => r matches Err(AppError::DatabaseError(m)) && m@ == "Failed to Delete "@
                + label@ + ": "@ + d@,
        }),
{
    match outcome {
        Ok(c) => {
            if c >= 1 {
                Ok(id.to_hex())
            } else if c == 0 {
                Err(AppError::NotFound)
            } else {
                Err(AppError::InternalError)
            }
        },
        Err(d) => {
            let mut m = String::from_str("Failed to Delete ");
            m.append(label);
            m.append(": ");
            m.append(d.as_str());
            Err(AppError::DatabaseError(m))
        },
    }
}

} // verus!
