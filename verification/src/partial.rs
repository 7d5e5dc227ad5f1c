//! The partial-object machinery: builder values, the full/partial sum type,
//! and the merge/build algebra.
//!
//! Every full object kind has a partial counterpart whose fields are
//! individually optional.  A [`MaybePartial`] holds either a finished object
//! behind a handle or such a builder value, so consumers can reference an
//! object without caring how far its construction has progressed.
//!
//! Merging and updating are pure; only [`MaybePartial::into_full`] and the
//! build methods touch the object store, and they validate before they
//! insert, so a failed build leaves the store unmodified.

use vstd::prelude::*;
use crate::storage::{spec_handle, Handle, Objects};

pub mod objects;
pub mod cycle;

verus! {

/// Why a partial object could not be turned into a full object.
///
/// These are the recoverable errors of the build path: a required field is
/// missing and cannot be inferred, or two fields that describe the same
/// geometry disagree.
#[derive(Clone, Copy, Debug, PartialEq, Eq, Structural)]
pub enum ValidationError {
    /// A position field is missing and no inference path supplies it.
    MissingPosition,
    /// A surface reference is missing and cannot be inferred.
    MissingSurface,
    /// A curve path is missing.
    MissingPath,
    /// The end vertices of an edge are missing.
    MissingVertices,
    /// Two fields that must describe the same entity disagree: two handles
    /// with different identities, or a position that does not lie where its
    /// defining frame puts it.
    Mismatch,
    /// An inference step would have to evaluate a circular path, which takes
    /// trigonometry and is left to the math backend outside this library.
    NonLinearPath,
}

/// A full object kind that has a partial counterpart.
pub trait HasPartial: Sized + Copy {
    /// The partial counterpart of this object kind.
    type Partial: PartialObject<Full = Self>;

    /// The partial object with every field filled from this full object.
    spec fn to_partial_spec(self) -> Self::Partial;

    /// Convert this full object into its partial counterpart, with every
    /// field filled in.  Never touches the object store.
    fn to_partial(&self) -> (r: Self::Partial)
        ensures
            r == self.to_partial_spec(),
    ;
}

/// A partial object: the mutable builder counterpart of a full object kind.
pub trait PartialObject: Sized + Copy {
    /// The full object kind this partial object builds into.
    type Full: Copy;

    /// The result of merging this partial object with another, field by
    /// field; for each field the first present value wins, and absence
    /// propagates.
    spec fn merge_spec(self, other: Self) -> Self;

    /// Merge this partial object with another describing the same entity.
    fn merge_with(self, other: Self) -> (r: Self)
        ensures
            r == self.merge_spec(other),
    ;

    /// Machine-limit preconditions of `build`: every coordinate that takes
    /// part in an inference product must be in coordinate range.
    spec fn build_req(self) -> bool;

    /// How many identities building this partial object consumes for the
    /// dependencies it inserts (not counting the object itself).
    spec fn build_ids(self) -> nat;

    /// Whether this partial object has enough information to build.
    spec fn build_ok(self) -> bool;

    /// The error that `build` reports when `build_ok` does not hold.
    spec fn build_err(self) -> ValidationError;

    /// The full object that `build` produces, given the store it starts
    /// from.
    spec fn built_value(self, o: Objects) -> Self::Full;

    /// Build the full object, inferring missing fields from cross-references
    /// where possible and inserting the dependencies into the store.  A
    /// failed build leaves the store unmodified.
    fn build(self, objects: &mut Objects) -> (r: Result<Self::Full, ValidationError>)
        requires
            self.build_req(),
            old(objects).id_count() + self.build_ids() < u64::MAX,
        ensures
            r is Ok <==> self.build_ok(),
            r matches Ok(v) ==> v == self.built_value(*old(objects)) && final(objects).id_count()
                == old(objects).id_count() + self.build_ids(),
            r matches Err(e) ==> e == self.build_err() && *final(objects) == *old(objects),
    ;
}

/// Either a full object behind a handle, or a partial object still under
/// construction.  Can be used everywhere both are accepted.
#[derive(Clone, Copy, Debug)]
pub enum MaybePartial<T: HasPartial> {
    /// A full object.
    Full(Handle<T>),
    /// A partial object.
    Partial(T::Partial),
}

impl<T: HasPartial> MaybePartial<T> {
    /// Indicate whether this is a full object.
    pub fn is_full(&self) -> (r: bool)
        ensures
            r == (*self is Full),
    {
        match self {
            MaybePartial::Full(_) => true,
            MaybePartial::Partial(_) => false,
        }
    }

    /// Indicate whether this is a partial object.
    pub fn is_partial(&self) -> (r: bool)
        ensures
            r == (*self is Partial),
    {
        match self {
            MaybePartial::Full(_) => false,
            MaybePartial::Partial(_) => true,
        }
    }

    /// If this is a partial object, update it with the given function; a
    /// full object is returned unchanged.
    ///
    /// This is how later-discovered information refines an object that is
    /// still in progress without disturbing one that is already resolved.
    pub fn update_partial<F: FnOnce(T::Partial) -> T::Partial>(self, f: F) -> (r: Self)
        requires
            self matches MaybePartial::Partial(p) ==> call_requires(f, (p,)),
        ensures
            self is Full ==> r == self,
            self matches MaybePartial::Partial(p) ==> (r matches MaybePartial::Partial(q)
                && call_ensures(f, (p,), q)),
    {
        match self {
            MaybePartial::Partial(partial) => MaybePartial::Partial(f(partial)),
            MaybePartial::Full(full) => MaybePartial::Full(full),
        }
    }

    /// Merge this `MaybePartial` with another of the same type.
    ///
    /// A full object always wins over a partial description, under the
    /// assumption that the partial description, once completed, would agree.
    /// Merging two full objects is meaningful only when they are the same
    /// object; two different identities violate the algebra's precondition.
    pub fn merge_with(self, other: Self) -> (r: Self)
        requires
            self matches MaybePartial::Full(a) ==> (other matches MaybePartial::Full(b)
                ==> a.spec_id() == b.spec_id()),
        ensures
            self is Full && other is Full ==> r == self,
            self is Full && other is Partial ==> r == self,
            self is Partial && other is Full ==> r == other,
            self matches MaybePartial::Partial(a) ==> (other matches MaybePartial::Partial(b)
                ==> r == MaybePartial::<T>::Partial(a.merge_spec(b))),
    {
        match (self, other) {
            (MaybePartial::Full(a), MaybePartial::Full(_)) => MaybePartial::Full(a),
            (MaybePartial::Full(full), MaybePartial::Partial(_)) => MaybePartial::Full(full),
            (MaybePartial::Partial(_), MaybePartial::Full(full)) => MaybePartial::Full(full),
            (MaybePartial::Partial(a), MaybePartial::Partial(b)) => MaybePartial::Partial(
                a.merge_with(b),
            ),
        }
    }

    /// Return or build a full object.
    ///
    /// If this already is a full object, its handle is returned and the
    /// store is untouched.  If this is a partial object, the full object is
    /// built, its dependencies and itself are inserted into the store, and
    /// the fresh handle is returned.  A failed build leaves the store
    /// unmodified.
    pub fn into_full(self, objects: &mut Objects) -> (r: Result<Handle<T>, ValidationError>)
        requires
            self matches MaybePartial::Partial(p) ==> p.build_req() && old(objects).id_count()
                + p.build_ids() < u64::MAX,
        ensures
            self matches MaybePartial::Full(h) ==> (r matches Ok(h2) && h2 == h)
                && *final(objects) == *old(objects),
            self matches MaybePartial::Partial(p) ==> {
                &&& r is Ok <==> p.build_ok()
                &&& r matches Ok(h) ==> h == spec_handle(
                    (old(objects).id_count() + p.build_ids()) as u64,
                    p.built_value(*old(objects)),
                ) && final(objects).id_count() == old(objects).id_count() + p.build_ids() + 1
                &&& r matches Err(e) ==> e == p.build_err() && *final(objects) == *old(objects)
            },
    {
        match self {
            MaybePartial::Partial(partial) => {
                match partial.build(objects) {
                    Ok(value) => Ok(objects.insert(value)),
                    Err(e) => Err(e),
                }
            },
            MaybePartial::Full(full) => Ok(full),
        }
    }

    /// Return or convert a partial object.
    ///
    /// If this already is a partial object, it is returned.  If this is a
    /// full object, an equivalent partial object with every field filled is
    /// produced.  Never touches the object store.
    pub fn into_partial(self) -> (r: T::Partial)
        ensures
            self matches MaybePartial::Partial(p) ==> r == p,
            self matches MaybePartial::Full(h) ==> r == h.value().to_partial_spec(),
    {
        match self {
            MaybePartial::Partial(partial) => partial,
            MaybePartial::Full(full) => full.get().to_partial(),
        }
    }
}

/// Merging two full descriptions of the same object keeps the first; in
/// particular it never needs to reconcile contents, because identity already
/// guarantees agreement.
pub proof fn lemma_merge_full_full<T: HasPartial>(a: Handle<T>, b: Handle<T>)
    requires
        a.spec_id() == b.spec_id(),
    ensures
        forall|r: MaybePartial<T>|
            call_ensures(MaybePartial::<T>::merge_with, (MaybePartial::Full(a), MaybePartial::Full(b)), r)
                ==> r == MaybePartial::<T>::Full(a),
{
}

} // verus!
