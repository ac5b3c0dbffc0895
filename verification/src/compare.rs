//! Equality and ordering of ids that share a tag: both are those of the raw
//! ids. Ids with different tags are different types and cannot be compared.

use crate::id::TypedId;
use std::cmp::Ordering;
use vstd::prelude::*;
use vstd::std_specs::cmp::{
    OrdSpec, PartialEqSpec, PartialEqSpecImpl, PartialOrdSpec, PartialOrdSpecImpl,
};

verus! {

impl<I: PartialEq, T> PartialEq for TypedId<I, T> {
    /// Two ids are equal exactly when their raw ids are, by `I`'s own
    /// equality.
    fn eq(&self, other: &Self) -> (r: bool)
        ensures
            I::obeys_eq_spec() ==> r == self@.eq_spec(&other@),
    {
        self.0.eq(&other.0)
    }
}

impl<I: PartialEq, T> PartialEqSpecImpl for TypedId<I, T> {
    open spec fn obeys_eq_spec() -> bool {
        I::obeys_eq_spec()
    }

    open spec fn eq_spec(&self, other: &Self) -> bool {
        self@.eq_spec(&other@)
    }
}

impl<I: Eq, T> Eq for TypedId<I, T> {

}

impl<I: PartialOrd, T> PartialOrd for TypedId<I, T> {
    /// Ids are ordered as their raw ids are, by `I`'s own order.
    fn partial_cmp(&self, other: &Self) -> (r: Option<Ordering>)
        ensures
            I::obeys_partial_cmp_spec() ==> r == self@.partial_cmp_spec(&other@),
    {
        self.0.partial_cmp(&other.0)
    }
}

impl<I: PartialOrd, T> PartialOrdSpecImpl for TypedId<I, T> {
    open spec fn obeys_partial_cmp_spec() -> bool {
        I::obeys_partial_cmp_spec()
    }

    open spec fn partial_cmp_spec(&self, other: &Self) -> Option<Ordering> {
        self@.partial_cmp_spec(&other@)
    }
}

impl<I: Ord, T> Ord for TypedId<I, T> {
    /// The total order of ids is that of their raw ids.
    ///
    /// Believed, not proved. The body is the one call of `Ord::cmp` on the
    /// two raw ids, and the clause below is what that call promises. The
    /// trait's own postcondition speaks of a `cmp_spec` of typed ids, which
    /// is left undefined, so nothing follows from it.
    #[verifier::external_body]
    fn cmp(&self, other: &Self) -> (r: Ordering)
        ensures
            I::obeys_cmp_spec() ==> r == self@.cmp_spec(&other@),
    {
        self.0.cmp(&other.0)
    }
}

} // verus!
