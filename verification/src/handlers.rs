//! The request handlers: one function per operation, each a linear sequence
//! of store calls, mapping the outcome to a success envelope or to a bare
//! numeric status, exactly as the HTTP surface answers.

use vstd::prelude::*;
use crate::item::{ApiResponse, CreateItemRequest, Item, ItemResponse, UpdateItemRequest,
    matches_item};
use crate::object_id::{decoded_bytes, hex_of, lemma_hex_round_trip, parse_object_id,
    valid_object_id_str};
use crate::store::{Store, key_bytes, key_of_bytes, lemma_key_round_trip, patched};
use crate::{STATUS_BAD_REQUEST, STATUS_INTERNAL_ERROR, STATUS_NOT_FOUND, STATUS_OK};

verus! {

/// A success envelope: code 200, the success message, the payload present.
pub open spec fn is_success_envelope<T>(env: ApiResponse<T>) -> bool {
    &&& env.code == STATUS_OK
    &&& env.message@ == "success"@
    &&& env.data is Some
}

/// An item as the create operation stores it under a key: content taken
/// from the payload, both timestamps stamped with the same instant, the
/// identifier of the key assigned.
pub open spec fn created_from(item: Item, payload: CreateItemRequest, now: i64, k: u64) -> bool {
    &&& item.id matches Some(oid) && oid@ == key_bytes(k)
    &&& item.name == payload.name
    &&& item.description == payload.description
    &&& item.price_bits == payload.price_bits
    &&& item.created_at == Some(now)
    &&& item.updated_at == Some(now)
}

/// Lists the whole collection: every stored item, oldest first, projected
/// to its external form and wrapped in a success envelope.
pub fn get_items(store: &Store) -> (r: Result<ApiResponse<Vec<ItemResponse>>, u16>)
    requires
        store.wf(),
    ensures
        r matches Ok(env) && is_success_envelope(env) && (env.data matches Some(list)
            && list@.len() == store.key_order().len() && (forall|i: int|
            0 <= i < list@.len() ==> matches_item(
                #[trigger] list@[i],
                store@[store.key_order()[i]],
            ))),
{
    let n = store.len();
    let mut list: Vec<ItemResponse> = Vec::new();
    let mut i: usize = 0;
    while i < n
        invariant
            store.wf(),
            n == store.key_order().len(),
            i <= n,
            list@.len() == i,
            forall|j: int|
                0 <= j < i ==> matches_item(#[trigger] list@[j], store@[store.key_order()[j]]),
        decreases n - i,
    {
        let k = store.key_at(i);
        match store.get_by_key(k) {
            Some(item) => {
                list.push(ItemResponse::from_item(item));
            },
            None => {
                proof {
                    assert(false);
                }
            },
        }
        i = i + 1;
    }
    Ok(ApiResponse::success(list))
}

/// Fetches one item by its external identifier: a malformed identifier is
/// rejected before any lookup, a missing one answers not-found, a present
/// one is projected and wrapped in a success envelope.
pub fn get_item(store: &Store, id: &str) -> (r: Result<ApiResponse<ItemResponse>, u16>)
    requires
        store.wf(),
    ensures
        !valid_object_id_str(id@) <==> r == Err::<ApiResponse<ItemResponse>, u16>(
            STATUS_BAD_REQUEST,
        ),
        valid_object_id_str(id@) && store.lookup(decoded_bytes(id@)) is None ==> r == Err::<
            ApiResponse<ItemResponse>,
            u16,
        >(STATUS_NOT_FOUND),
        valid_object_id_str(id@) ==> (store.lookup(decoded_bytes(id@)) matches Some(item) ==> (
        r matches Ok(env) && is_success_envelope(env) && (env.data matches Some(resp)
            && matches_item(resp, item)))),
{
    let oid = match parse_object_id(id) {
        Some(o) => o,
        None => {
            return Err(STATUS_BAD_REQUEST);
        },
    };
    match store.find(&oid) {
        Some(item) => Ok(ApiResponse::success(ItemResponse::from_item(item))),
        None => Err(STATUS_NOT_FOUND),
    }
}

/// Creates an item from the payload: stamps both timestamps with the given
/// instant, stores it under a fresh key, re-reads the stored form and
/// answers it in a success envelope. Everything already stored is kept.
pub fn create_item(store: &mut Store, payload: CreateItemRequest, now: i64) -> (r: Result<
    ApiResponse<ItemResponse>,
    u16,
>)
    requires
        old(store).wf(),
        old(store).next_key() < u64::MAX,
    ensures
        final(store).wf(),
        !old(store)@.contains_key(old(store).next_key()),
        final(store)@.contains_key(old(store).next_key()),
        created_from(
            final(store)@[old(store).next_key()],
            payload,
            now,
            old(store).next_key(),
        ),
        final(store)@.remove(old(store).next_key()) == old(store)@,
        final(store).key_order() == old(store).key_order().push(old(store).next_key()),
        final(store).next_key() == old(store).next_key() + 1,
        r matches Ok(env) && is_success_envelope(env) && (env.data matches Some(resp)
            && matches_item(resp, final(store)@[old(store).next_key()])),
{
    let item = Item {
        id: None,
        name: payload.name,
        description: payload.description,
        price_bits: payload.price_bits,
        created_at: Some(now),
        updated_at: Some(now),
    };
    let id = store.insert_new(item);
    proof {
        lemma_key_round_trip(old(store).next_key());
    }
    match store.find(&id) {
        Some(stored) => Ok(ApiResponse::success(ItemResponse::from_item(stored))),
        None => {
            proof {
                assert(false);
            }
            Err(STATUS_INTERNAL_ERROR)
        },
    }
}

/// Applies a partial update to the item an external identifier names: a
/// malformed identifier is rejected before any lookup, a missing item
/// answers not-found and changes nothing, and otherwise every field the
/// payload carries is overwritten, the update timestamp is refreshed, and
/// the updated stored form is re-read and answered in a success envelope.
pub fn update_item(store: &mut Store, id: &str, payload: UpdateItemRequest, now: i64) -> (r:
    Result<ApiResponse<ItemResponse>, u16>)
    requires
        old(store).wf(),
    ensures
        final(store).wf(),
        !valid_object_id_str(id@) <==> r == Err::<ApiResponse<ItemResponse>, u16>(
            STATUS_BAD_REQUEST,
        ),
        !valid_object_id_str(id@) ==> *final(store) == *old(store),
        valid_object_id_str(id@) && old(store).lookup(decoded_bytes(id@)) is None ==> r == Err::<
            ApiResponse<ItemResponse>,
            u16,
        >(STATUS_NOT_FOUND) && *final(store) == *old(store),
        valid_object_id_str(id@) ==> (old(store).lookup(decoded_bytes(id@)) matches Some(prior)
            ==> (key_of_bytes(decoded_bytes(id@)) matches Some(k)
                && final(store)@ == old(store)@.insert(k, patched(prior, payload, now))
                && (r matches Ok(env) && is_success_envelope(env)
                && (env.data matches Some(resp)
                && matches_item(resp, patched(prior, payload, now)))))),
        final(store).key_order() == old(store).key_order(),
        final(store).next_key() == old(store).next_key(),
{
    let oid = match parse_object_id(id) {
        Some(o) => o,
        None => {
            return Err(STATUS_BAD_REQUEST);
        },
    };
    match store.find(&oid) {
        Some(_) => {
        },
        None => {
            return Err(STATUS_NOT_FOUND);
        },
    }
    store.update(&oid, payload, now);
    match store.find(&oid) {
        Some(item) => Ok(ApiResponse::success(ItemResponse::from_item(item))),
        None => {
            proof {
                assert(false);
            }
            Err(STATUS_INTERNAL_ERROR)
        },
    }
}

/// Deletes the item an external identifier names: a malformed identifier is
/// rejected before any lookup; when an item was removed the answer is a
/// success envelope with an empty payload, and when none matched it is
/// not-found.
pub fn delete_item(store: &mut Store, id: &str) -> (r: Result<ApiResponse<()>, u16>)
    requires
        old(store).wf(),
    ensures
        final(store).wf(),
        !valid_object_id_str(id@) <==> r == Err::<ApiResponse<()>, u16>(STATUS_BAD_REQUEST),
        !valid_object_id_str(id@) ==> *final(store) == *old(store),
        valid_object_id_str(id@) && old(store).lookup(decoded_bytes(id@)) is None ==> r == Err::<
            ApiResponse<()>,
            u16,
        >(STATUS_NOT_FOUND) && *final(store) == *old(store),
        valid_object_id_str(id@) && old(store).lookup(decoded_bytes(id@)) is Some ==> (
        key_of_bytes(decoded_bytes(id@)) matches Some(k) && final(store)@ == old(store)@.remove(k)
            && (exists|i: int|
            0 <= i < old(store).key_order().len() && old(store).key_order()[i] == k
                && final(store).key_order() == old(store).key_order().remove(i)) && (
        r matches Ok(env) && is_success_envelope(env) && env.data == Some(()))),
        final(store).next_key() == old(store).next_key(),
{
    let oid = match parse_object_id(id) {
        Some(o) => o,
        None => {
            return Err(STATUS_BAD_REQUEST);
        },
    };
    if store.delete(&oid) {
        Ok(ApiResponse::success(()))
    } else {
        Err(STATUS_NOT_FOUND)
    }
}

/// What a lookup against the backing collection came to: an item, no item,
/// or a failure of the storage layer itself.
pub enum FindOutcome {
    Found(Item),
    Missing,
    Failed,
}

/// Maps the outcome of a fetch to the reply: a found item is projected and
/// wrapped in a success envelope, a missing one answers not-found, a
/// storage failure answers a server error.
pub fn find_reply(outcome: FindOutcome) -> (r: Result<ApiResponse<ItemResponse>, u16>)
    ensures
        outcome matches FindOutcome::Found(item) ==> (r matches Ok(env) && is_success_envelope(
            env,
        ) && (env.data matches Some(resp) && matches_item(resp, item))),
        outcome is Missing ==> r == Err::<ApiResponse<ItemResponse>, u16>(STATUS_NOT_FOUND),
        outcome is Failed ==> r == Err::<ApiResponse<ItemResponse>, u16>(STATUS_INTERNAL_ERROR),
{
    match outcome {
        FindOutcome::Found(item) => Ok(ApiResponse::success(ItemResponse::from_item(&item))),
        FindOutcome::Missing => Err(STATUS_NOT_FOUND),
        FindOutcome::Failed => Err(STATUS_INTERNAL_ERROR),
    }
}

/// Maps the outcome of re-reading a document that was just written: only a
/// found item is a success; its absence is as much a storage failure as an
/// error of the driver.
pub fn reread_reply(outcome: FindOutcome) -> (r: Result<ApiResponse<ItemResponse>, u16>)
    ensures
        outcome matches FindOutcome::Found(item) ==> (r matches Ok(env) && is_success_envelope(
            env,
        ) && (env.data matches Some(resp) && matches_item(resp, item))),
        outcome is Missing || outcome is Failed ==> r == Err::<ApiResponse<ItemResponse>, u16>(
            STATUS_INTERNAL_ERROR,
        ),
{
    match outcome {
        FindOutcome::Found(item) => Ok(ApiResponse::success(ItemResponse::from_item(&item))),
        FindOutcome::Missing => Err(STATUS_INTERNAL_ERROR),
        FindOutcome::Failed => Err(STATUS_INTERNAL_ERROR),
    }
}

/// Maps a delete's count of removed documents to the reply: at least one
/// removed is a success with an empty payload, none is not-found.
pub fn delete_reply(deleted_count: u64) -> (r: Result<ApiResponse<()>, u16>)
    ensures
        deleted_count > 0 ==> (r matches Ok(env) && is_success_envelope(env) && env.data == Some(
            (),
        )),
        deleted_count == 0 ==> r == Err::<ApiResponse<()>, u16>(STATUS_NOT_FOUND),
{
    if deleted_count > 0 {
        Ok(ApiResponse::success(()))
    } else {
        Err(STATUS_NOT_FOUND)
    }
}

/// Maps the outcome of a full scan to the reply: the items in the order the
/// scan yielded them, each projected, in a success envelope; a storage
/// failure answers a server error.
pub fn list_reply(scan: Option<Vec<Item>>) -> (r: Result<ApiResponse<Vec<ItemResponse>>, u16>)
    ensures
        scan matches Some(items) ==> (r matches Ok(env) && is_success_envelope(env) && (
        env.data matches Some(list) && list@.len() == items@.len() && (forall|i: int|
            0 <= i < list@.len() ==> matches_item(#[trigger] list@[i], items@[i])))),
        scan is None ==> r == Err::<ApiResponse<Vec<ItemResponse>>, u16>(STATUS_INTERNAL_ERROR),
{
    let items = match scan {
        Some(items) => items,
        None => {
            return Err(STATUS_INTERNAL_ERROR);
        },
    };
    let mut list: Vec<ItemResponse> = Vec::new();
    let mut i: usize = 0;
    while i < items.len()
        invariant
            i <= items@.len(),
            list@.len() == i,
            forall|j: int| 0 <= j < i ==> matches_item(#[trigger] list@[j], items@[j]),
        decreases items@.len() - i,
    {
        list.push(ItemResponse::from_item(&items[i]));
        i = i + 1;
    }
    Ok(ApiResponse::success(list))
}

/// The static information envelope of the service root.
pub fn root() -> (r: ApiResponse<String>)
    ensures
        r.code == STATUS_OK,
        r.message@ == "Financial Kanban - Rust Service"@,
        r.data matches Some(v) && v@ == "0.1.0"@,
{
    ApiResponse {
        code: STATUS_OK,
        message: "Financial Kanban - Rust Service".to_owned(),
        data: Some("0.1.0".to_owned()),
    }
}

/// The static health envelope.
pub fn health() -> (r: ApiResponse<String>)
    ensures
        r.code == STATUS_OK,
        r.message@ == "healthy"@,
        r.data matches Some(v) && v@ == "ok"@,
{
    ApiResponse { code: STATUS_OK, message: "healthy".to_owned(), data: Some("ok".to_owned()) }
}

/// Creating an item and fetching it by the identifier the create answered
/// yields a stored document with the same name, description and price, and
/// with its creation and update timestamps equal: the created item's
/// external identifier is a well-formed identifier string, and looking that
/// string up in the store the create left behind finds the created item.
pub proof fn lemma_create_then_fetch(s: Store, payload: CreateItemRequest, now: i64, k: u64)
    requires
        s@.contains_key(k),
        created_from(s@[k], payload, now, k),
    ensures
        valid_object_id_str(hex_of(key_bytes(k))),
        s.lookup(decoded_bytes(hex_of(key_bytes(k)))) matches Some(item)
            && item.name == payload.name && item.description == payload.description
            && item.price_bits == payload.price_bits && item.created_at == Some(now)
            && item.updated_at == item.created_at,
{
    assert(key_bytes(k).len() == 12);
    lemma_hex_round_trip(key_bytes(k));
    lemma_key_round_trip(k);
}

/// A partial update that carries only a price changes the price and the
/// update timestamp, and leaves the name, the description, the creation
/// timestamp and the identifier untouched.
pub proof fn lemma_update_price_only(item: Item, price: u64, now: i64)
    ensures
        ({
            let after = patched(
                item,
                UpdateItemRequest { name: None, description: None, price_bits: Some(price) },
                now,
            );
            &&& after.price_bits == Some(price)
            &&& after.updated_at == Some(now)
            &&& after.name == item.name
            &&& after.description == item.description
            &&& after.created_at == item.created_at
            &&& after.id == item.id
        }),
{
}

/// After an item is deleted, the same identifier finds nothing: a second
/// delete, a fetch or an update through it answers not-found.
pub proof fn lemma_deleted_is_gone(s0: Store, s1: Store, b: Seq<u8>)
    requires
        s0.lookup(b) is Some,
        key_of_bytes(b) matches Some(k) && s1@ == s0@.remove(k),
    ensures
        s1.lookup(b) is None,
{
}

} // verus!
