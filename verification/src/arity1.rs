//! Split specializations for a tuple of one element.

use vstd::prelude::*;

use crate::TupleSplitAt;
use crate::TupleSplitIntoLeft;
use crate::TupleSplitIntoRight;

verus! {

impl<A> TupleSplitAt<0> for (A,) {
    type Left = ();
    type Right = (A,);

    open spec fn spec_split_at(self) -> ((), (A,)) {
        ((), (self.0,))
    }

    open spec fn spec_concat(left: (), right: (A,)) -> (A,) {
        (right.0,)
    }

    proof fn lemma_split_concat(self) {
    }

    proof fn lemma_concat_split(left: (), right: (A,)) {
    }

    fn split_tuple_at(self) -> (r: ((), (A,))) {
        let (a,) = self;
        ((), (a,))
    }
}

impl<A> TupleSplitIntoLeft<()> for (A,) {
    type Right = (A,);

    open spec fn spec_split_into_left(self) -> ((), (A,)) {
        ((), (self.0,))
    }

    fn split_tuple_into_left(self) -> (r: ((), (A,))) {
        let (a,) = self;
        ((), (a,))
    }
}

impl<A> TupleSplitIntoRight<(A,)> for (A,) {
    type Left = ();

    open spec fn spec_split_into_right(self) -> ((), (A,)) {
        ((), (self.0,))
    }

    fn split_tuple_into_right(self) -> (r: ((), (A,))) {
        let (a,) = self;
        ((), (a,))
    }
}

impl<A> TupleSplitAt<1> for (A,) {
    type Left = (A,);
    type Right = ();

    open spec fn spec_split_at(self) -> ((A,), ()) {
        ((self.0,), ())
    }

    open spec fn spec_concat(left: (A,), right: ()) -> (A,) {
        (left.0,)
    }

    proof fn lemma_split_concat(self) {
    }

    proof fn lemma_concat_split(left: (A,), right: ()) {
    }

    fn split_tuple_at(self) -> (r: ((A,), ())) {
        let (a,) = self;
        ((a,), ())
    }
}

impl<A> TupleSplitIntoLeft<(A,)> for (A,) {
    type Right = ();

    open spec fn spec_split_into_left(self) -> ((A,), ()) {
        ((self.0,), ())
    }

    fn split_tuple_into_left(self) -> (r: ((A,), ())) {
        let (a,) = self;
        ((a,), ())
    }
}

impl<A> TupleSplitIntoRight<()> for (A,) {
    type Left = (A,);

    open spec fn spec_split_into_right(self) -> ((A,), ()) {
        ((self.0,), ())
    }

    fn split_tuple_into_right(self) -> (r: ((A,), ())) {
        let (a,) = self;
        ((a,), ())
    }
}

/// Splitting at index zero leaves the left part empty and the right part
/// equal to the whole source; splitting at the arity leaves the left part
/// equal to the whole source and the right part empty.
pub proof fn lemma_boundary<A>(t: (A,))
    ensures
        <(A,) as TupleSplitAt<0>>::spec_split_at(t) == (((), t)),
        <(A,) as TupleSplitAt<1>>::spec_split_at(t) == ((t, ())),
{
}

/// Splitting by the prefix shape of the first `k` element types, or by the
/// suffix shape of the remaining element types, agrees with splitting at
/// index `k`, for every split point `k` of the arity.
pub proof fn lemma_shape_index_equivalence<A>(t: (A,))
    ensures
        <(A,) as TupleSplitIntoLeft<()>>::spec_split_into_left(t)
            == <(A,) as TupleSplitAt<0>>::spec_split_at(t),
        <(A,) as TupleSplitIntoRight<(A,)>>::spec_split_into_right(t)
            == <(A,) as TupleSplitAt<0>>::spec_split_at(t),
        <(A,) as TupleSplitIntoLeft<(A,)>>::spec_split_into_left(t)
            == <(A,) as TupleSplitAt<1>>::spec_split_at(t),
        <(A,) as TupleSplitIntoRight<()>>::spec_split_into_right(t)
            == <(A,) as TupleSplitAt<1>>::spec_split_at(t),
{
}

/// Splitting by a prefix shape and splitting by the complementary suffix
/// shape produce identical left and right parts, for every split point of
/// the arity.
pub proof fn lemma_cross_consistency<A>(t: (A,))
    ensures
        <(A,) as TupleSplitIntoLeft<()>>::spec_split_into_left(t)
            == <(A,) as TupleSplitIntoRight<(A,)>>::spec_split_into_right(t),
        <(A,) as TupleSplitIntoLeft<(A,)>>::spec_split_into_left(t)
            == <(A,) as TupleSplitIntoRight<()>>::spec_split_into_right(t),
{
}

} // verus!
