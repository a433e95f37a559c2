//! An items collection: a keyed store that assigns each inserted item a
//! fresh identifier, looks items up by identifier, applies partial updates,
//! and removes items. It gives the request handlers exactly the semantics
//! they rely on from the backing collection.

use vstd::prelude::*;
use std::collections::HashMap;
use crate::item::{Item, UpdateItemRequest};
use crate::object_id::ItemId;

verus! {

broadcast use vstd::std_specs::hash::group_hash_axioms;

/// The twelve identifier bytes that stand for a store key: four zero bytes,
/// then the key in big-endian order.
pub open spec fn key_bytes(k: u64) -> Seq<u8> {
    seq![
        0u8,
        0u8,
        0u8,
        0u8,
        (k >> 56) as u8,
        (k >> 48) as u8,
        (k >> 40) as u8,
        (k >> 32) as u8,
        (k >> 24) as u8,
        (k >> 16) as u8,
        (k >> 8) as u8,
        k as u8,
    ]
}

/// The key read back from the last eight of twelve identifier bytes.
pub open spec fn combined_key(b: Seq<u8>) -> u64
    recommends
        b.len() == 12,
{
    (((b[4] as u64) << 56) | ((b[5] as u64) << 48) | ((b[6] as u64) << 40) | ((b[7] as u64) << 32)
        | ((b[8] as u64) << 24) | ((b[9] as u64) << 16) | ((b[10] as u64) << 8) | (b[11] as u64)) as u64
}

/// The store key an identifier stands for, if any: the bytes must be twelve,
/// the first four zero.
pub open spec fn key_of_bytes(b: Seq<u8>) -> Option<u64> {
    if b.len() == 12 && b[0] == 0 && b[1] == 0 && b[2] == 0 && b[3] == 0 {
        Some(combined_key(b))
    } else {
        None
    }
}

/// Reading a key back from its identifier bytes yields the key.
pub proof fn lemma_key_round_trip(k: u64)
    ensures
        key_of_bytes(key_bytes(k)) == Some(k),
{
    assert((((((k >> 56) as u8) as u64) << 56) | ((((k >> 48) as u8) as u64) << 48)
        | ((((k >> 40) as u8) as u64) << 40) | ((((k >> 32) as u8) as u64) << 32)
        | ((((k >> 24) as u8) as u64) << 24) | ((((k >> 16) as u8) as u64) << 16)
        | ((((k >> 8) as u8) as u64) << 8) | ((k as u8) as u64)) == k) by (bit_vector);
}

/// Builds the identifier that stands for a store key.
pub fn id_for_key(k: u64) -> (id: ItemId)
    ensures
        id@ == key_bytes(k),
{
    let mut bytes: Vec<u8> = Vec::new();
    bytes.push(0u8);
    bytes.push(0u8);
    bytes.push(0u8);
    bytes.push(0u8);
    bytes.push((k >> 56) as u8);
    bytes.push((k >> 48) as u8);
    bytes.push((k >> 40) as u8);
    bytes.push((k >> 32) as u8);
    bytes.push((k >> 24) as u8);
    bytes.push((k >> 16) as u8);
    bytes.push((k >> 8) as u8);
    bytes.push(k as u8);
    proof {
        assert(bytes@ =~= key_bytes(k));
    }
    ItemId::from_bytes(bytes)
}

/// Reads the store key an identifier stands for, if any.
pub fn key_for_id(id: &ItemId) -> (r: Option<u64>)
    ensures
        r == key_of_bytes(id@),
{
    let b = id.as_bytes();
    if b[0] != 0 || b[1] != 0 || b[2] != 0 || b[3] != 0 {
        return None;
    }
    let k: u64 = ((b[4] as u64) << 56) | ((b[5] as u64) << 48) | ((b[6] as u64) << 40)
        | ((b[7] as u64) << 32) | ((b[8] as u64) << 24) | ((b[9] as u64) << 16)
        | ((b[10] as u64) << 8) | (b[11] as u64);
    Some(k)
}

/// An item as the store keeps it under a key: the same content, the
/// identifier field set to that key's identifier bytes.
pub open spec fn stored_under(stored: Item, item: Item, k: u64) -> bool {
    &&& stored.id matches Some(oid) && oid@ == key_bytes(k)
    &&& stored.name == item.name
    &&& stored.description == item.description
    &&& stored.price_bits == item.price_bits
    &&& stored.created_at == item.created_at
    &&& stored.updated_at == item.updated_at
}

/// An item after a partial update: every field the request carries is
/// overwritten, every absent field is kept, the update timestamp is always
/// refreshed, and the identifier and creation timestamp never change.
pub open spec fn patched(item: Item, req: UpdateItemRequest, now: i64) -> Item {
    Item {
        id: item.id,
        name: match req.name {
            Some(n) => n,
            None => item.name,
        },
        description: match req.description {
            Some(d) => Some(d),
            None => item.description,
        },
        price_bits: match req.price_bits {
            Some(p) => Some(p),
            None => item.price_bits,
        },
        created_at: item.created_at,
        updated_at: Some(now),
    }
}

/// The items collection. Keys are assigned from a counter, never reused, and
/// each stored item carries the identifier of its own key; the insertion
/// order of the live items is kept for listing.
pub struct Store {
    items: HashMap<u64, Item>,
    order: Vec<u64>,
    next: u64,
}

impl View for Store {
    type V = Map<u64, Item>;

    closed spec fn view(&self) -> Map<u64, Item> {
        self.items@
    }
}

impl Store {
    /// The keys of the live items, oldest first.
    pub closed spec fn key_order(self) -> Seq<u64> {
        self.order@
    }

    /// The key the next inserted item will get.
    pub closed spec fn next_key(self) -> u64 {
        self.next
    }

    /// The store's invariant: every live key is below the counter, the
    /// listing order holds exactly the live keys, each once, and every
    /// stored item carries the identifier bytes of its own key.
    pub closed spec fn wf(self) -> bool {
        &&& forall|k: u64| self.items@.contains_key(k) ==> k < self.next
        &&& self.order@.no_duplicates()
        &&& forall|i: int|
            0 <= i < self.order@.len() ==> self.items@.contains_key(#[trigger] self.order@[i])
        &&& forall|k: u64| self.items@.contains_key(k) ==> self.order@.contains(k)
        &&& forall|k: u64|
            self.items@.contains_key(k) ==> ((#[trigger] self.items@[k]).id matches Some(oid)
                && oid@ == key_bytes(k))
    }

    /// The item a well-formed external identifier finds, if any.
    pub open spec fn lookup(self, b: Seq<u8>) -> Option<Item> {
        match key_of_bytes(b) {
            Some(k) => if self@.contains_key(k) {
                Some(self@[k])
            } else {
                None
            },
            None => None,
        }
    }

    /// An empty collection lists as an empty array: with nothing stored,
    /// the listing order is empty, so the listing answers a success
    /// envelope whose array has no element.
    pub proof fn lemma_empty_store_lists_nothing(self)
        requires
            self.wf(),
            self@ == Map::<u64, Item>::empty(),
        ensures
            self.key_order().len() == 0,
    {
        if self.order@.len() > 0 {
            assert(self.items@.contains_key(self.order@[0]));
        }
    }

    /// An empty store.
    pub fn new() -> (s: Store)
        ensures
            s.wf(),
            s@ == Map::<u64, Item>::empty(),
            s.key_order() == Seq::<u64>::empty(),
            s.next_key() == 0,
    {
        Store { items: HashMap::new(), order: Vec::new(), next: 0 }
    }

    /// How many items are stored.
    pub fn len(&self) -> (n: usize)
        ensures
            n == self.key_order().len(),
    {
        self.order.len()
    }

    /// The key of the item at one position of the listing order.
    pub fn key_at(&self, i: usize) -> (k: u64)
        requires
            self.wf(),
            i < self.key_order().len(),
        ensures
            k == self.key_order()[i as int],
            self@.contains_key(k),
    {
        self.order[i]
    }

    /// The stored item under a key.
    pub fn get_by_key(&self, k: u64) -> (r: Option<&Item>)
        requires
            self.wf(),
        ensures
            match r {
                Some(item) => self@.contains_key(k) && *item == self@[k],
                None => !self@.contains_key(k),
            },
    {
        self.items.get(&k)
    }

    /// The stored item an identifier finds.
    pub fn find(&self, id: &ItemId) -> (r: Option<&Item>)
        requires
            self.wf(),
        ensures
            match r {
                Some(item) => self.lookup(id@) == Some(*item),
                None => self.lookup(id@) is None,
            },
    {
        match key_for_id(id) {
            Some(k) => self.items.get(&k),
            None => None,
        }
    }

    /// Inserts a new item: assigns it the next key, stamps the matching
    /// identifier into it, and answers that identifier. The key is fresh,
    /// and everything else in the store stays as it was.
    pub fn insert_new(&mut self, item: Item) -> (id: ItemId)
        requires
            old(self).wf(),
            old(self).next_key() < u64::MAX,
            item.id is None,
        ensures
            final(self).wf(),
            id@ == key_bytes(old(self).next_key()),
            !old(self)@.contains_key(old(self).next_key()),
            final(self)@.contains_key(old(self).next_key()),
            stored_under(final(self)@[old(self).next_key()], item, old(self).next_key()),
            final(self)@.remove(old(self).next_key()) == old(self)@,
            final(self).key_order() == old(self).key_order().push(old(self).next_key()),
            final(self).next_key() == old(self).next_key() + 1,
    {
        let k = self.next;
        let stored = Item {
            id: Some(id_for_key(k)),
            name: item.name,
            description: item.description,
            price_bits: item.price_bits,
            created_at: item.created_at,
            updated_at: item.updated_at,
        };
        self.items.insert(k, stored);
        self.order.push(k);
        self.next = k + 1;
        proof {
            assert(self@.remove(k) =~= old(self)@);
            assert forall|i: int, j: int|
                0 <= i < self.order@.len() && 0 <= j < self.order@.len() && i != j implies self.order@[i]
                != self.order@[j] by {
                if i < self.order@.len() - 1 && j < self.order@.len() - 1 {
                } else if i == self.order@.len() - 1 {
                    assert(old(self)@.contains_key(old(self).key_order()[j]));
                } else {
                    assert(old(self)@.contains_key(old(self).key_order()[i]));
                }
            }
            assert forall|k2: u64| self.items@.contains_key(k2) implies self.order@.contains(
                k2,
            ) by {
                if k2 == k {
                    assert(self.order@[self.order@.len() - 1] == k);
                } else {
                    assert(old(self)@.contains_key(k2));
                    assert(old(self).key_order().contains(k2));
                    let i = choose|i: int|
                        0 <= i < old(self).key_order().len() && old(self).key_order()[i] == k2;
                    assert(self.order@[i] == k2);
                }
            }
        }
        id_for_key(k)
    }

    /// Applies a partial update to the item an identifier finds. Answers
    /// whether one was found; when none is, nothing changes.
    pub fn update(&mut self, id: &ItemId, req: UpdateItemRequest, now: i64) -> (found: bool)
        requires
            old(self).wf(),
        ensures
            final(self).wf(),
            found <==> old(self).lookup(id@) is Some,
            found ==> (key_of_bytes(id@) matches Some(k) && final(self)@ == old(self)@.insert(
                k,
                patched(old(self)@[k], req, now),
            )),
            !found ==> *final(self) == *old(self),
            final(self).key_order() == old(self).key_order(),
            final(self).next_key() == old(self).next_key(),
    {
        let k = match key_for_id(id) {
            Some(k) => k,
            None => {
                return false;
            },
        };
        if !self.items.contains_key(&k) {
            return false;
        }
        let prior = self.items.remove(&k).unwrap();
        let Item { id: pid, name, description, price_bits, created_at, updated_at: _ } = prior;
        let newer = Item {
            id: pid,
            name: match req.name {
                Some(n) => n,
                None => name,
            },
            description: match req.description {
                Some(d) => Some(d),
                None => description,
            },
            price_bits: match req.price_bits {
                Some(p) => Some(p),
                None => price_bits,
            },
            created_at,
            updated_at: Some(now),
        };
        self.items.insert(k, newer);
        proof {
            assert(self@ =~= old(self)@.insert(k, patched(old(self)@[k], req, now)));
        }
        true
    }

    /// Removes the item an identifier finds. Answers whether one was
    /// removed; when none is, nothing changes.
    pub fn delete(&mut self, id: &ItemId) -> (found: bool)
        requires
            old(self).wf(),
        ensures
            final(self).wf(),
            found <==> old(self).lookup(id@) is Some,
            found ==> (key_of_bytes(id@) matches Some(k) && final(self)@ == old(self)@.remove(k)
                && (exists|i: int|
                    0 <= i < old(self).key_order().len() && old(self).key_order()[i] == k
                        && final(self).key_order() == old(self).key_order().remove(i))),
            !found ==> *final(self) == *old(self),
            final(self).next_key() == old(self).next_key(),
    {
        let k = match key_for_id(id) {
            Some(k) => k,
            None => {
                return false;
            },
        };
        if !self.items.contains_key(&k) {
            return false;
        }
        self.items.remove(&k);
        proof {
            assert(old(self)@.contains_key(k));
            assert(old(self).key_order().contains(k));
        }
        let end = self.order.len();
        let mut i: usize = 0;
        while self.order[i] != k
            invariant
                old(self).wf(),
                self.order@ == old(self).key_order(),
                self.order@.len() == end,
                0 <= i < self.order@.len(),
                exists|j: int| i <= j < self.order@.len() && self.order@[j] == k,
                forall|j: int| 0 <= j < i ==> self.order@[j] != k,
            decreases self.order@.len() - i,
        {
            proof {
                let jw = choose|j: int| i <= j < self.order@.len() && self.order@[j] == k;
                assert(jw != i);
                assert(i + 1 <= jw < self.order@.len() && self.order@[jw] == k);
            }
            i = i + 1;
        }
        self.order.remove(i);
        proof {
            let oldorder = old(self).key_order();
            let ii = i as int;
            oldorder.remove_ensures(ii);
            assert(self.order@ == oldorder.remove(ii));
            assert forall|a: int, b: int|
                0 <= a < self.order@.len() && 0 <= b < self.order@.len() && a != b implies self.order@[a]
                != self.order@[b] by {
                let a0 = if a < ii { a } else { a + 1 };
                let b0 = if b < ii { b } else { b + 1 };
                assert(self.order@[a] == oldorder[a0]);
                assert(self.order@[b] == oldorder[b0]);
            }
            assert forall|k2: u64| self.items@.contains_key(k2) implies self.order@.contains(
                k2,
            ) by {
                assert(old(self)@.contains_key(k2));
                assert(oldorder.contains(k2));
                let j = choose|j: int| 0 <= j < oldorder.len() && oldorder[j] == k2;
                if j < ii {
                    assert(self.order@[j] == k2);
                } else {
                    assert(oldorder[ii] == k && k2 != k);
                    assert(self.order@[j - 1] == k2);
                }
            }
            assert forall|a: int|
                0 <= a < self.order@.len() implies self.items@.contains_key(
                #[trigger] self.order@[a],
            ) by {
                let a0 = if a < ii { a } else { a + 1 };
                assert(self.order@[a] == oldorder[a0]);
                assert(oldorder[a0] != k);
            }
        }
        true
    }
}

} // verus!
