//! Split specializations for the empty tuple.

use vstd::prelude::*;

use crate::TupleSplitAt;
use crate::TupleSplitIntoLeft;
use crate::TupleSplitIntoRight;

verus! {

impl TupleSplitAt<0> for () {
    type Left = ();
    type Right = ();

    open spec fn spec_split_at(self) -> ((), ()) {
        ((), ())
    }

    open spec fn spec_concat(left: (), right: ()) -> () {
        ()
    }

    proof fn lemma_split_concat(self) {
    }

    proof fn lemma_concat_split(left: (), right: ()) {
    }

    fn split_tuple_at(self) -> (r: ((), ())) {
        ((), ())
    }
}

impl TupleSplitIntoLeft<()> for () {
    type Right = ();

    open spec fn spec_split_into_left(self) -> ((), ()) {
        ((), ())
    }

    fn split_tuple_into_left(self) -> (r: ((), ())) {
        ((), ())
    }
}

impl TupleSplitIntoRight<()> for () {
    type Left = ();

    open spec fn spec_split_into_right(self) -> ((), ()) {
        ((), ())
    }

    fn split_tuple_into_right(self) -> (r: ((), ())) {
        ((), ())
    }
}

/// Splitting at index zero leaves the left part empty and the right part
/// equal to the whole source; splitting at the arity leaves the left part
/// equal to the whole source and the right part empty.
pub proof fn lemma_boundary(t: ())
    ensures
        <() as TupleSplitAt<0>>::spec_split_at(t) == (((), t)),
        <() as TupleSplitAt<0>>::spec_split_at(t) == ((t, ())),
{
}

/// Splitting by the prefix shape of the first `k` element types, or by the
/// suffix shape of the remaining element types, agrees with splitting at
/// index `k`, for every split point `k` of the arity.
pub proof fn lemma_shape_index_equivalence(t: ())
    ensures
        <() as TupleSplitIntoLeft<()>>::spec_split_into_left(t)
            == <() as TupleSplitAt<0>>::spec_split_at(t),
        <() as TupleSplitIntoRight<()>>::spec_split_into_right(t)
            == <() as TupleSplitAt<0>>::spec_split_at(t),
{
}

/// Splitting by a prefix shape and splitting by the complementary suffix
/// shape produce identical left and right parts, for every split point of
/// the arity.
pub proof fn lemma_cross_consistency(t: ())
    ensures
        <() as TupleSplitIntoLeft<()>>::spec_split_into_left(t)
            == <() as TupleSplitIntoRight<()>>::spec_split_into_right(t),
{
}

} // verus!
