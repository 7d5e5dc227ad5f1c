//! The object store: stable identity for fully built objects.
//!
//! The store is an arena of identities.  Inserting an object assigns it a
//! fresh, never-reused id and wraps it in a [`Handle`].  A handle carries the
//! id together with the canonical value, so reading through a handle needs no
//! access to the store; equality and ordering of handles go by id alone.

use vstd::prelude::*;

verus! {

/// An identity-bearing reference to a stored object.
///
/// Handles are created only by [`Objects::insert`]; two handles returned by
/// different insertions never share an id.
#[derive(Clone, Copy, Debug)]
pub struct Handle<T> {
    id: u64,
    value: T,
}

impl<T> Handle<T> {
    /// The identity of the referenced object.
    pub closed spec fn spec_id(&self) -> u64 {
        self.id
    }

    /// The canonical value of the referenced object.
    pub closed spec fn value(&self) -> T {
        self.value
    }

    /// The identity of the referenced object.
    #[verifier::when_used_as_spec(spec_id)]
    pub fn id(&self) -> (r: u64)
        ensures
            r == self.spec_id(),
    {
        self.id
    }

    /// Read access to the referenced object.
    pub fn get(&self) -> (r: &T)
        ensures
            *r == self.value(),
    {
        &self.value
    }
}

/// The handle with the given id and value, as a spec value.  Used by
/// contracts to pin down exactly which handle an insertion returns.
pub closed spec fn spec_handle<T>(id: u64, value: T) -> Handle<T> {
    Handle { id, value }
}

/// `spec_handle` really has the id and value it was formed from.
pub broadcast proof fn lemma_spec_handle<T>(id: u64, value: T)
    ensures
        (#[trigger] spec_handle(id, value)).spec_id() == id,
        spec_handle(id, value).value() == value,
{
}

/// The store whose next insertion receives the given id, as a spec value.
/// Used by contracts to describe intermediate store states.
pub closed spec fn spec_objects(next: u64) -> Objects {
    Objects { next_id: next }
}

/// `spec_objects` really is the store with the given count.
pub broadcast proof fn lemma_spec_objects(next: u64)
    ensures
        (#[trigger] spec_objects(next)).id_count() == next,
{
}

/// Every store is `spec_objects` of its count.
pub broadcast proof fn lemma_objects_parts(o: Objects)
    ensures
        o == spec_objects(#[trigger] o.id_count()),
{
}

/// The object store.  It dispenses identities; the canonical values travel
/// inside the handles it returns.
pub struct Objects {
    next_id: u64,
}

impl Objects {
    /// How many identities have been handed out so far.  The next insertion
    /// receives exactly this id.
    pub closed spec fn id_count(&self) -> u64 {
        self.next_id
    }

    /// How many identities have been handed out so far.
    pub fn count(&self) -> (r: u64)
        ensures
            r == self.id_count(),
    {
        self.next_id
    }

    /// An empty store.
    pub fn new() -> (r: Objects)
        ensures
            r.id_count() == 0,
    {
        Objects { next_id: 0 }
    }

    /// Insert a fully built object, assigning it a fresh identity.
    pub fn insert<T>(&mut self, value: T) -> (h: Handle<T>)
        requires
            old(self).id_count() < u64::MAX,
        ensures
            h == spec_handle(old(self).id_count(), value),
            h.spec_id() == old(self).id_count(),
            h.value() == value,
            final(self).id_count() == old(self).id_count() + 1,
    {
        let id = self.next_id;
        self.next_id = self.next_id + 1;
        Handle { id, value }
    }
}

} // verus!
