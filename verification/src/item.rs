//! The entity model: the stored document shape, the request payload shapes,
//! the response projection, and the uniform response envelope.

use vstd::prelude::*;
use crate::object_id::{ItemId, hex_of};
use crate::time::{format_rfc3339, rfc3339_of};

verus! {

/// A stored item. The identifier is absent until the storage layer assigns
/// one; the price is carried as the bit pattern of a 64-bit floating-point
/// number, which this library never interprets; timestamps are milliseconds
/// since the epoch.
pub struct Item {
    pub id: Option<ItemId>,
    pub name: String,
    pub description: Option<String>,
    pub price_bits: Option<u64>,
    pub created_at: Option<i64>,
    pub updated_at: Option<i64>,
}

/// The payload that creates an item: a required name, the rest optional.
pub struct CreateItemRequest {
    pub name: String,
    pub description: Option<String>,
    pub price_bits: Option<u64>,
}

/// The payload that updates an item: every field optional; a present field
/// overwrites the stored one, an absent field leaves it untouched.
pub struct UpdateItemRequest {
    pub name: Option<String>,
    pub description: Option<String>,
    pub price_bits: Option<u64>,
}

/// The external projection of an item: the identifier as a hexadecimal
/// string, the timestamps as ISO-8601 strings, both empty when absent.
pub struct ItemResponse {
    pub id: String,
    pub name: String,
    pub description: Option<String>,
    pub price_bits: Option<u64>,
    pub created_at: String,
    pub updated_at: String,
}

/// The uniform envelope around every JSON reply: a numeric code, a message,
/// and an optional payload.
pub struct ApiResponse<T> {
    pub code: u16,
    pub message: String,
    pub data: Option<T>,
}

impl<T> ApiResponse<T> {
    /// The success envelope: code 200, the message `success`, the payload
    /// present.
    pub fn success(data: T) -> (r: Self)
        ensures
            r.code == 200,
            r.message@ == "success"@,
            r.data == Some(data),
    {
        Self { code: 200, message: success_message(), data: Some(data) }
    }

    /// An error envelope: the given code and message, no payload.
    pub fn error(message: String, code: u16) -> (r: Self)
        ensures
            r.code == code,
            r.message == message,
            r.data is None,
    {
        Self { code, message, data: None }
    }
}

/// The message of every success envelope.
fn success_message() -> (r: String)
    ensures
        r@ == "success"@,
{
    let s = "success";
    s.to_owned()
}

/// Whether a response projection renders exactly the given item: fields
/// copied, the identifier in hexadecimal (empty when absent), the timestamps
/// in ISO-8601 (empty when absent).
pub open spec fn matches_item(r: ItemResponse, item: Item) -> bool {
    &&& r.id@ == match item.id {
        Some(oid) => hex_of(oid@),
        None => Seq::<char>::empty(),
    }
    &&& r.name == item.name
    &&& r.description == item.description
    &&& r.price_bits == item.price_bits
    &&& r.created_at@ == match item.created_at {
        Some(t) => rfc3339_of(t),
        None => Seq::<char>::empty(),
    }
    &&& r.updated_at@ == match item.updated_at {
        Some(t) => rfc3339_of(t),
        None => Seq::<char>::empty(),
    }
}

impl ItemResponse {
    /// Projects a stored item to its external form.
    pub fn from_item(item: &Item) -> (r: ItemResponse)
        ensures
            matches_item(r, *item),
    {
        let id = match &item.id {
            Some(oid) => oid.to_hex(),
            None => String::new(),
        };
        let created_at = match &item.created_at {
            Some(t) => format_rfc3339(*t),
            None => String::new(),
        };
        let updated_at = match &item.updated_at {
            Some(t) => format_rfc3339(*t),
            None => String::new(),
        };
        ItemResponse {
            id,
            name: clone_string(&item.name),
            description: clone_opt_string(&item.description),
            price_bits: item.price_bits,
            created_at,
            updated_at,
        }
    }
}

/// A copy of a string that is equal to it, not merely equal in view.
pub(crate) fn clone_string(s: &String) -> (r: String)
    ensures
        r == *s,
{
    s.clone()
}

/// A copy of an optional string, equal to it.
pub(crate) fn clone_opt_string(s: &Option<String>) -> (r: Option<String>)
    ensures
        r == *s,
{
    match s {
        Some(v) => Some(v.clone()),
        None => None,
    }
}

} // verus!
