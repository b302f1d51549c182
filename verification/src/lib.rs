//! A handle-indexed object store.
//!
//! A [`Store`] owns values of a single type and hands out opaque, copyable
//! [`StoreHandle`] tokens in exchange; a handle later resolves back to the
//! stored value. The store is modelled as a map from 128-bit identifiers to
//! values, and every operation is specified against that map.

use core::marker::PhantomData;
use std::collections::HashMap;
use vstd::prelude::*;

pub mod untyped;

verus! {

broadcast use vstd::std_specs::hash::group_hash_axioms;

/// An opaque, copyable token referencing a value of type `T` owned by a
/// [`Store<T>`]. It carries a 128-bit identifier and a compile-time-only
/// association with `T`; its view is the identifier alone.
#[derive(PartialEq, Eq, Hash, Debug)]
pub struct StoreHandle<T> {
    id: u128,
    marker: PhantomData<T>,
}

impl<T> Clone for StoreHandle<T> {
    fn clone(&self) -> (r: Self)
        ensures
            r == *self,
    {
        StoreHandle { id: self.id, marker: PhantomData }
    }
}

impl<T> Copy for StoreHandle<T> {}

impl<T> View for StoreHandle<T> {
    type V = u128;

    closed spec fn view(&self) -> u128 {
        self.id
    }
}

/// Relies on `uuid::Uuid::new_v4` to draw a fresh random 128-bit identifier.
/// Nothing is assumed of the value drawn.
#[verifier::external_body]
pub(crate) fn fresh_id() -> u128 {
    uuid::Uuid::new_v4().as_u128()
}

impl<T> StoreHandle<T> {
    /// Makes a handle around a freshly drawn identifier.
    pub fn new() -> Self {
        StoreHandle { id: fresh_id(), marker: PhantomData }
    }

    /// The identifier the handle carries.
    pub fn id(&self) -> (r: u128)
        ensures
            r == self@,
    {
        self.id
    }
}

/// An owning container mapping 128-bit identifiers to values of type `T`.
/// Its view is the mathematical map from identifiers to stored values.
pub struct Store<T> {
    items: HashMap<u128, T>,
}

impl<T> View for Store<T> {
    type V = Map<u128, T>;

    closed spec fn view(&self) -> Map<u128, T> {
        self.items@
    }
}

/// Relies on std's `HashMap::get_mut`: it hands out a mutable borrow of the
/// value under the key, if any, and no other entry of the map changes.
#[verifier::external_body]
fn map_get_mut<'a, T>(m: &'a mut HashMap<u128, T>, k: u128) -> (r: Option<&'a mut T>)
    ensures
        !old(m)@.contains_key(k) ==> r.is_none() && final(m)@ == old(m)@,
        old(m)@.contains_key(k) ==> r.is_some() && *r.unwrap() == old(m)@[k] && final(m)@ == old(
            m,
        )@.insert(k, *final(r.unwrap())),
{
    m.get_mut(&k)
}

impl<T> Store<T> {
    /// Makes an empty store.
    pub fn new() -> (s: Self)
        ensures
            s@ == Map::<u128, T>::empty(),
    {
        Store { items: HashMap::new() }
    }

    /// Takes ownership of `item`, files it under a freshly drawn identifier,
    /// and returns a handle carrying that identifier. The handle resolves to
    /// `item` until it is removed or overwritten through `get_mut`.
    pub fn insert(&mut self, item: T) -> (handle: StoreHandle<T>)
        ensures
            final(self)@ == old(self)@.insert(handle@, item),
            final(self)@.contains_key(handle@),
            final(self)@[handle@] == item,
    {
        let handle = StoreHandle::new();
        self.items.insert(handle.id, item);
        handle
    }

    /// Resolves a handle to a shared borrow of the stored value, or `None`
    /// when no value is filed under the handle's identifier.
    pub fn get(&self, handle: &StoreHandle<T>) -> (r: Option<&T>)
        ensures
            match r {
                Some(v) => self@.contains_key(handle@) && *v == self@[handle@],
                None => !self@.contains_key(handle@),
            },
    {
        self.items.get(&handle.id)
    }

    /// Resolves a handle to a mutable borrow of the stored value, or `None`
    /// when no value is filed under the handle's identifier. A write through
    /// the borrow replaces the entry; the rest of the store is untouched.
    pub fn get_mut(&mut self, handle: &StoreHandle<T>) -> (r: Option<&mut T>)
        ensures
            !old(self)@.contains_key(handle@) ==> r.is_none() && final(self)@ == old(self)@,
            old(self)@.contains_key(handle@) ==> r.is_some() && *r.unwrap() == old(self)@[handle@]
                && final(self)@ == old(self)@.insert(handle@, *final(r.unwrap())),
    {
        map_get_mut(&mut self.items, handle.id)
    }

    /// Deletes the entry under the handle's identifier, if any. Removing an
    /// absent identifier leaves the store as it is.
    pub fn remove(&mut self, handle: &StoreHandle<T>)
        ensures
            final(self)@ == old(self)@.remove(handle@),
    {
        self.items.remove(&handle.id);
    }

    /// Resolves a handle that is known to be live; the counterpart of `get`
    /// for call sites that have already proven the entry is present.
    pub fn index(&self, handle: StoreHandle<T>) -> (r: &T)
        requires
            self@.contains_key(handle@),
        ensures
            *r == self@[handle@],
    {
        match self.items.get(&handle.id) {
            Some(v) => v,
            None => vstd::pervasive::unreached(),
        }
    }

    /// Mutably resolves a handle that is known to be live; the counterpart of
    /// `get_mut` for call sites that have already proven the entry is present.
    pub fn index_mut(&mut self, handle: StoreHandle<T>) -> (r: &mut T)
        requires
            old(self)@.contains_key(handle@),
        ensures
            *r == old(self)@[handle@],
            final(self)@ == old(self)@.insert(handle@, *final(r)),
    {
        match map_get_mut(&mut self.items, handle.id) {
            Some(v) => v,
            None => vstd::pervasive::unreached(),
        }
    }
}

/// After an insert, the returned handle resolves to the inserted value: in
/// the store's new state — `insert` leaves `m.insert(id, v)` — the entry
/// under the handle's identifier is present and holds `v`, so `get` returns
/// it and `index` may be called.
pub proof fn lemma_insert_then_get<T>(m: Map<u128, T>, id: u128, v: T)
    ensures
        m.insert(id, v).contains_key(id),
        m.insert(id, v)[id] == v,
{
}

/// A write through `get_mut` or `index_mut` is visible to every later read:
/// both leave the store at `m.insert(id, w)`, where the entry under the
/// handle's identifier holds the written value and every other entry stands
/// as it was.
pub proof fn lemma_write_then_get<T>(m: Map<u128, T>, id: u128, w: T)
    ensures
        m.insert(id, w).contains_key(id),
        m.insert(id, w)[id] == w,
        forall|k: u128|
            k != id ==> m.insert(id, w).contains_key(k) == m.contains_key(k),
        forall|k: u128|
            k != id && m.contains_key(k) ==> m.insert(id, w)[k] == m[k],
{
}

/// After a removal the handle dangles silently: `remove` leaves the store at
/// `m.remove(id)`, where the entry under the handle's identifier is absent —
/// so `get` returns `None` — and every other entry stands as it was.
pub proof fn lemma_remove_then_get<T>(m: Map<u128, T>, id: u128)
    ensures
        !m.remove(id).contains_key(id),
        forall|k: u128|
            k != id ==> m.remove(id).contains_key(k) == m.contains_key(k),
        forall|k: u128|
            k != id && m.contains_key(k) ==> m.remove(id)[k] == m[k],
{
}

/// Removal is idempotent: removing the same identifier twice leaves exactly
/// the state a single removal leaves.
pub proof fn lemma_remove_idempotent<T>(m: Map<u128, T>, id: u128)
    ensures
        m.remove(id).remove(id) == m.remove(id),
{
    assert(m.remove(id).remove(id) =~= m.remove(id));
}

} // verus!
