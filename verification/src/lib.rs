//! Verified core of a dog-walking service API: request validation,
//! conversion between request, entity and response shapes, partial-update
//! field selection, and the persistence gateway's decision logic, for the
//! four resources Owner, Dog, Booking and Sitter.

pub mod booking;
pub mod dog;
pub mod errors;
pub mod gateway;
pub mod oid;
pub mod owner;
pub mod response;
pub mod sitter;
pub mod time;
