//! Split specializations for a tuple of two elements.

use vstd::prelude::*;

use crate::TupleSplitAt;
use crate::TupleSplitIntoLeft;
use crate::TupleSplitIntoRight;

verus! {

impl<A, B> TupleSplitAt<0> for (A, B) {
    type Left = ();
    type Right = (A, B);

    open spec fn spec_split_at(self) -> ((), (A, B)) {
        ((), (self.0, self.1))
    }

    open spec fn spec_concat(left: (), right: (A, B)) -> (A, B) {
        (right.0, right.1)
    }

    proof fn lemma_split_concat(self) {
    }

    proof fn lemma_concat_split(left: (), right: (A, B)) {
    }

    fn split_tuple_at(self) -> (r: ((), (A, B))) {
        let (a, b) = self;
        ((), (a, b))
    }
}

impl<A, B> TupleSplitIntoLeft<()> for (A, B) {
    type Right = (A, B);

    open spec fn spec_split_into_left(self) -> ((), (A, B)) {
        ((), (self.0, self.1))
    }

    fn split_tuple_into_left(self) -> (r: ((), (A, B))) {
        let (a, b) = self;
        ((), (a, b))
    }
}

impl<A, B> TupleSplitIntoRight<(A, B)> for (A, B) {
    type Left = ();

    open spec fn spec_split_into_right(self) -> ((), (A, B)) {
        ((), (self.0, self.1))
    }

    fn split_tuple_into_right(self) -> (r: ((), (A, B))) {
        let (a, b) = self;
        ((), (a, b))
    }
}

impl<A, B> TupleSplitAt<1> for (A, B) {
    type Left = (A,);
    type Right = (B,);

    open spec fn spec_split_at(self) -> ((A,), (B,)) {
        ((self.0,), (self.1,))
    }

    open spec fn spec_concat(left: (A,), right: (B,)) -> (A, B) {
        (left.0, right.0)
    }

    proof fn lemma_split_concat(self) {
    }

    proof fn lemma_concat_split(left: (A,), right: (B,)) {
    }

    fn split_tuple_at(self) -> (r: ((A,), (B,))) {
        let (a, b) = self;
        ((a,), (b,))
    }
}

impl<A, B> TupleSplitIntoLeft<(A,)> for (A, B) {
    type Right = (B,);

    open spec fn spec_split_into_left(self) -> ((A,), (B,)) {
        ((self.0,), (self.1,))
    }

    fn split_tuple_into_left(self) -> (r: ((A,), (B,))) {
        let (a, b) = self;
        ((a,), (b,))
    }
}

impl<A, B> TupleSplitIntoRight<(B,)> for (A, B) {
    type Left = (A,);

    open spec fn spec_split_into_right(self) -> ((A,), (B,)) {
        ((self.0,), (self.1,))
    }

    fn split_tuple_into_right(self) -> (r: ((A,), (B,))) {
        let (a, b) = self;
        ((a,), (b,))
    }
}

impl<A, B> TupleSplitAt<2> for (A, B) {
    type Left = (A, B);
    type Right = ();

    open spec fn spec_split_at(self) -> ((A, B), ()) {
        ((self.0, self.1), ())
    }

    open spec fn spec_concat(left: (A, B), right: ()) -> (A, B) {
        (left.0, left.1)
    }

    proof fn lemma_split_concat(self) {
    }

    proof fn lemma_concat_split(left: (A, B), right: ()) {
    }

    fn split_tuple_at(self) -> (r: ((A, B), ())) {
        let (a, b) = self;
        ((a, b), ())
    }
}

impl<A, B> TupleSplitIntoLeft<(A, B)> for (A, B) {
    type Right = ();

    open spec fn spec_split_into_left(self) -> ((A, B), ()) {
        ((self.0, self.1), ())
    }

    fn split_tuple_into_left(self) -> (r: ((A, B), ())) {
        let (a, b) = self;
        ((a, b), ())
    }
}

impl<A, B> TupleSplitIntoRight<()> for (A, B) {
    type Left = (A, B);

    open spec fn spec_split_into_right(self) -> ((A, B), ()) {
        ((self.0, self.1), ())
    }

    fn split_tuple_into_right(self) -> (r: ((A, B), ())) {
        let (a, b) = self;
        ((a, b), ())
    }
}

/// Splitting at index zero leaves the left part empty and the right part
/// equal to the whole source; splitting at the arity leaves the left part
/// equal to the whole source and the right part empty.
pub proof fn lemma_boundary<A, B>(t: (A, B))
    ensures
        <(A, B) as TupleSplitAt<0>>::spec_split_at(t) == (((), t)),
        <(A, B) as TupleSplitAt<2>>::spec_split_at(t) == ((t, ())),
{
}

/// Splitting by the prefix shape of the first `k` element types, or by the
/// suffix shape of the remaining element types, agrees with splitting at
/// index `k`, for every split point `k` of the arity.
pub proof fn lemma_shape_index_equivalence<A, B>(t: (A, B))
    ensures
        <(A, B) as TupleSplitIntoLeft<()>>::spec_split_into_left(t)
            == <(A, B) as TupleSplitAt<0>>::spec_split_at(t),
        <(A, B) as TupleSplitIntoRight<(A, B)>>::spec_split_into_right(t)
            == <(A, B) as TupleSplitAt<0>>::spec_split_at(t),
        <(A, B) as TupleSplitIntoLeft<(A,)>>::spec_split_into_left(t)
            == <(A, B) as TupleSplitAt<1>>::spec_split_at(t),
        <(A, B) as TupleSplitIntoRight<(B,)>>::spec_split_into_right(t)
            == <(A, B) as TupleSplitAt<1>>::spec_split_at(t),
        <(A, B) as TupleSplitIntoLeft<(A, B)>>::spec_split_into_left(t)
            == <(A, B) as TupleSplitAt<2>>::spec_split_at(t),
        <(A, B) as TupleSplitIntoRight<()>>::spec_split_into_right(t)
            == <(A, B) as TupleSplitAt<2>>::spec_split_at(t),
{
}

/// Splitting by a prefix shape and splitting by the complementary suffix
/// shape produce identical left and right parts, for every split point of
/// the arity.
pub proof fn lemma_cross_consistency<A, B>(t: (A, B))
    ensures
        <(A, B) as TupleSplitIntoLeft<()>>::spec_split_into_left(t)
            == <(A, B) as TupleSplitIntoRight<(A, B)>>::spec_split_into_right(t),
        <(A, B) as TupleSplitIntoLeft<(A,)>>::spec_split_into_left(t)
            == <(A, B) as TupleSplitIntoRight<(B,)>>::spec_split_into_right(t),
        <(A, B) as TupleSplitIntoLeft<(A, B)>>::spec_split_into_left(t)
            == <(A, B) as TupleSplitIntoRight<()>>::spec_split_into_right(t),
{
}

} // verus!
