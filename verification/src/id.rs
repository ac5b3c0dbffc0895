//! The identifier wrapper itself: construction, read access, re-tagging,
//! default value and copies.

use std::marker::PhantomData;
use std::ops::Deref;
use vstd::prelude::*;
use vstd::std_specs::convert::{FromSpec, FromSpecImpl};

verus! {

/// An identifier of underlying type `I` that belongs to entities of type `T`.
///
/// Only the raw id is stored. The owner type `T` is a marker: no value of it
/// is ever held, and it takes no part in any operation. The view of a typed
/// id is its raw id.
pub struct TypedId<I, T>(pub I, pub(crate) PhantomData<T>);

impl<I, T> View for TypedId<I, T> {
    type V = I;

    open(crate) spec fn view(&self) -> I {
        self.0
    }
}

impl<I, T> TypedId<I, T> {
    /// The id tagged with `T` that carries `raw`.
    pub open(crate) spec fn wrap(raw: I) -> Self {
        TypedId(raw, PhantomData)
    }

    /// Creates a typed id from a raw id. Every value of `I` is accepted.
    pub fn new(id: I) -> (r: Self)
        ensures
            r == Self::wrap(id),
            r@ == id,
    {
        TypedId(id, PhantomData)
    }

    /// Explicitly converts into another type that can be built from the raw
    /// id: an id with another tag, or any other `B: From<I>`. The id is
    /// consumed and `B` is built from its raw id. This is the only way to
    /// carry a raw id from one tag to another.
    pub fn convert<B: From<I>>(self) -> (r: B)
        ensures
            call_ensures(B::from, (self@,), r),
            B::obeys_from_spec() ==> r == B::from_spec(self@),
    {
        B::from(self.0)
    }
}

impl<I, T> Deref for TypedId<I, T> {
    type Target = I;

    /// Read access to the raw id.
    fn deref(&self) -> (r: &I)
        ensures
            *r == self@,
    {
        &self.0
    }
}

impl<I, T> From<I> for TypedId<I, T> {
    /// Tags a raw id.
    fn from(other: I) -> (r: TypedId<I, T>)
        ensures
            r == Self::wrap(other),
            r@ == other,
    {
        TypedId(other, PhantomData)
    }
}

impl<I, T> FromSpecImpl<I> for TypedId<I, T> {
    open spec fn obeys_from_spec() -> bool {
        true
    }

    open spec fn from_spec(v: I) -> Self {
        Self::wrap(v)
    }
}

impl<I: Default, T> Default for TypedId<I, T> {
    /// The default id carries the default raw id.
    fn default() -> (r: Self)
        ensures
            call_ensures(I::default, (), r@),
    {
        TypedId(Default::default(), Default::default())
    }
}

impl<I: Clone, T> Clone for TypedId<I, T> {
    /// A clone carries a clone of the raw id.
    fn clone(&self) -> (r: Self)
        ensures
            cloned::<I>(self@, r@),
    {
        TypedId(self.0.clone(), PhantomData)
    }
}

impl<I: Copy, T> Copy for TypedId<I, T> {

}

} // verus!
