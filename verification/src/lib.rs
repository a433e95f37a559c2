//! A small items service: an entity model for stored items, an identifier
//! codec, an in-memory collection with the semantics the request handlers
//! rely on, and the handlers themselves, each with a proved contract.

pub mod handlers;
pub mod item;
pub mod object_id;
pub mod store;
pub mod time;

use vstd::prelude::*;

verus! {

/// The numeric status a handler answers with when a request succeeds.
pub const STATUS_OK: u16 = 200;

/// The status for a request whose identifier is not well formed.
pub const STATUS_BAD_REQUEST: u16 = 400;

/// The status for a well-formed identifier that matches no stored item.
pub const STATUS_NOT_FOUND: u16 = 404;

/// The status for a failure of the storage layer itself.
pub const STATUS_INTERNAL_ERROR: u16 = 500;

} // verus!
