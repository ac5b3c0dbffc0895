//! What holds of typed ids in general, stated over their views and proved
//! once for every raw type and every tag.

use crate::id::TypedId;
use vstd::laws_cmp::obeys_partial_cmp_spec_properties;
use vstd::laws_eq::{obeys_eq, obeys_eq_spec_properties};
use vstd::prelude::*;
use vstd::std_specs::cmp::{PartialEqSpec, PartialOrdSpec};
use vstd::std_specs::convert::FromSpec;

verus! {

/// Wrapping a raw id and reading it back gives the raw id, whatever the tag.
pub proof fn lemma_wrap_then_read<I, T>(raw: I)
    ensures
        TypedId::<I, T>::wrap(raw)@ == raw,
        TypedId::<I, T>::from_spec(raw)@ == raw,
{
}

/// A typed id holds its raw id and nothing else: it is the id that wrapping
/// its raw id gives, so two ids of one tag with the same raw id are the same
/// id.
pub proof fn lemma_raw_id_is_all<I, T>(a: TypedId<I, T>, b: TypedId<I, T>)
    ensures
        a == TypedId::<I, T>::wrap(a@),
        a@ == b@ <==> a == b,
{
}

/// Two ids of one tag are equal exactly when their raw ids are, by the
/// equality of `I`; and equality of ids is as lawful as that of `I`.
pub proof fn lemma_equality_mirrors_raw<I: PartialEq, T>(v1: I, v2: I)
    ensures
        TypedId::<I, T>::wrap(v1).eq_spec(&TypedId::<I, T>::wrap(v2)) == v1.eq_spec(&v2),
        TypedId::<I, T>::obeys_eq_spec() == I::obeys_eq_spec(),
{
}

/// Two ids of one tag are ordered exactly as their raw ids are, by the order
/// of `I`; and the order of ids is as lawful as that of `I`.
pub proof fn lemma_order_mirrors_raw<I: PartialOrd, T>(v1: I, v2: I)
    ensures
        TypedId::<I, T>::wrap(v1).partial_cmp_spec(&TypedId::<I, T>::wrap(v2))
            == v1.partial_cmp_spec(&v2),
        TypedId::<I, T>::obeys_partial_cmp_spec() == I::obeys_partial_cmp_spec(),
{
}

/// Where equality of raw ids is an equivalence relation that `==` computes,
/// so is equality of typed ids.
pub proof fn lemma_equality_is_equivalence<I: PartialEq, T>()
    requires
        obeys_eq::<I>(),
    ensures
        obeys_eq::<TypedId<I, T>>(),
{
    reveal(obeys_eq_spec_properties);
}

/// Where the order of raw ids is a lawful partial order, so is the order of
/// typed ids.
pub proof fn lemma_order_is_lawful<I: PartialOrd, T>()
    requires
        obeys_partial_cmp_spec_properties::<I>(),
    ensures
        obeys_partial_cmp_spec_properties::<TypedId<I, T>>(),
{
    reveal(obeys_eq_spec_properties);
    reveal(obeys_partial_cmp_spec_properties);
}

/// Re-tagging an id from `A` to `B` and back to `A` gives the id it started
/// from, and the id tagged `B` in between carries the same raw id.
pub proof fn lemma_retag_round_trip<I, A, B>(a: TypedId<I, A>)
    ensures
        TypedId::<I, B>::from_spec(a@)@ == a@,
        TypedId::<I, A>::from_spec(TypedId::<I, B>::from_spec(a@)@) == a,
{
}

} // verus!
