//! Split specializations for a tuple of three elements.

use vstd::prelude::*;

use crate::TupleSplitAt;
use crate::TupleSplitIntoLeft;
use crate::TupleSplitIntoRight;

verus! {

impl<A, B, C> TupleSplitAt<0> for (A, B, C) {
    type Left = ();
    type Right = (A, B, C);

    open spec fn spec_split_at(self) -> ((), (A, B, C)) {
        ((), (self.0, self.1, self.2))
    }

    open spec fn spec_concat(left: (), right: (A, B, C)) -> (A, B, C) {
        (right.0, right.1, right.2)
    }

    proof fn lemma_split_concat(self) {
    }

    proof fn lemma_concat_split(left: (), right: (A, B, C)) {
    }

    fn split_tuple_at(self) -> (r: ((), (A, B, C))) {
        let (a, b, c) = self;
        ((), (a, b, c))
    }
}

impl<A, B, C> TupleSplitIntoLeft<()> for (A, B, C) {
    type Right = (A, B, C);

    open spec fn spec_split_into_left(self) -> ((), (A, B, C)) {
        ((), (self.0, self.1, self.2))
    }

    fn split_tuple_into_left(self) -> (r: ((), (A, B, C))) {
        let (a, b, c) = self;
        ((), (a, b, c))
    }
}

impl<A, B, C> TupleSplitIntoRight<(A, B, C)> for (A, B, C) {
    type Left = ();

    open spec fn spec_split_into_right(self) -> ((), (A, B, C)) {
        ((), (self.0, self.1, self.2))
    }

    fn split_tuple_into_right(self) -> (r: ((), (A, B, C))) {
        let (a, b, c) = self;
        ((), (a, b, c))
    }
}

impl<A, B, C> TupleSplitAt<1> for (A, B, C) {
    type Left = (A,);
    type Right = (B, C);

    open spec fn spec_split_at(self) -> ((A,), (B, C)) {
        ((self.0,), (self.1, self.2))
    }

    open spec fn spec_concat(left: (A,), right: (B, C)) -> (A, B, C) {
        (left.0, right.0, right.1)
    }

    proof fn lemma_split_concat(self) {
    }

    proof fn lemma_concat_split(left: (A,), right: (B, C)) {
    }

    fn split_tuple_at(self) -> (r: ((A,), (B, C))) {
        let (a, b, c) = self;
        ((a,), (b, c))
    }
}

impl<A, B, C> TupleSplitIntoLeft<(A,)> for (A, B, C) {
    type Right = (B, C);

    open spec fn spec_split_into_left(self) -> ((A,), (B, C)) {
        ((self.0,), (self.1, self.2))
    }

    fn split_tuple_into_left(self) -> (r: ((A,), (B, C))) {
        let (a, b, c) = self;
        ((a,), (b, c))
    }
}

impl<A, B, C> TupleSplitIntoRight<(B, C)> for (A, B, C) {
    type Left = (A,);

    open spec fn spec_split_into_right(self) -> ((A,), (B, C)) {
        ((self.0,), (self.1, self.2))
    }

    fn split_tuple_into_right(self) -> (r: ((A,), (B, C))) {
        let (a, b, c) = self;
        ((a,), (b, c))
    }
}

impl<A, B, C> TupleSplitAt<2> for (A, B, C) {
    type Left = (A, B);
    type Right = (C,);

    open spec fn spec_split_at(self) -> ((A, B), (C,)) {
        ((self.0, self.1), (self.2,))
    }

    open spec fn spec_concat(left: (A, B), right: (C,)) -> (A, B, C) {
        (left.0, left.1, right.0)
    }

    proof fn lemma_split_concat(self) {
    }

    proof fn lemma_concat_split(left: (A, B), right: (C,)) {
    }

    fn split_tuple_at(self) -> (r: ((A, B), (C,))) {
        let (a, b, c) = self;
        ((a, b), (c,))
    }
}

impl<A, B, C> TupleSplitIntoLeft<(A, B)> for (A, B, C) {
    type Right = (C,);

    open spec fn spec_split_into_left(self) -> ((A, B), (C,)) {
        ((self.0, self.1), (self.2,))
    }

    fn split_tuple_into_left(self) -> (r: ((A, B), (C,))) {
        let (a, b, c) = self;
        ((a, b), (c,))
    }
}

impl<A, B, C> TupleSplitIntoRight<(C,)> for (A, B, C) {
    type Left = (A, B);

    open spec fn spec_split_into_right(self) -> ((A, B), (C,)) {
        ((self.0, self.1), (self.2,))
    }

    fn split_tuple_into_right(self) -> (r: ((A, B), (C,))) {
        let (a, b, c) = self;
        ((a, b), (c,))
    }
}

impl<A, B, C> TupleSplitAt<3> for (A, B, C) {
    type Left = (A, B, C);
    type Right = ();

    open spec fn spec_split_at(self) -> ((A, B, C), ()) {
        ((self.0, self.1, self.2), ())
    }

    open spec fn spec_concat(left: (A, B, C), right: ()) -> (A, B, C) {
        (left.0, left.1, left.2)
    }

    proof fn lemma_split_concat(self) {
    }

    proof fn lemma_concat_split(left: (A, B, C), right: ()) {
    }

    fn split_tuple_at(self) -> (r: ((A, B, C), ())) {
        let (a, b, c) = self;
        ((a, b, c), ())
    }
}

impl<A, B, C> TupleSplitIntoLeft<(A, B, C)> for (A, B, C) {
    type Right = ();

    open spec fn spec_split_into_left(self) -> ((A, B, C), ()) {
        ((self.0, self.1, self.2), ())
    }

    fn split_tuple_into_left(self) -> (r: ((A, B, C), ())) {
        let (a, b, c) = self;
        ((a, b, c), ())
    }
}

impl<A, B, C> TupleSplitIntoRight<()> for (A, B, C) {
    type Left = (A, B, C);

    open spec fn spec_split_into_right(self) -> ((A, B, C), ()) {
        ((self.0, self.1, self.2), ())
    }

    fn split_tuple_into_right(self) -> (r: ((A, B, C), ())) {
        let (a, b, c) = self;
        ((a, b, c), ())
    }
}

/// Splitting at index zero leaves the left part empty and the right part
/// equal to the whole source; splitting at the arity leaves the left part
/// equal to the whole source and the right part empty.
pub proof fn lemma_boundary<A, B, C>(t: (A, B, C))
    ensures
        <(A, B, C) as TupleSplitAt<0>>::spec_split_at(t) == (((), t)),
        <(A, B, C) as TupleSplitAt<3>>::spec_split_at(t) == ((t, ())),
{
}

/// Splitting by the prefix shape of the first `k` element types, or by the
/// suffix shape of the remaining element types, agrees with splitting at
/// index `k`, for every split point `k` of the arity.
pub proof fn lemma_shape_index_equivalence<A, B, C>(t: (A, B, C))
    ensures
        <(A, B, C) as TupleSplitIntoLeft<()>>::spec_split_into_left(t)
            == <(A, B, C) as TupleSplitAt<0>>::spec_split_at(t),
        <(A, B, C) as TupleSplitIntoRight<(A, B, C)>>::spec_split_into_right(t)
            == <(A, B, C) as TupleSplitAt<0>>::spec_split_at(t),
        <(A, B, C) as TupleSplitIntoLeft<(A,)>>::spec_split_into_left(t)
            == <(A, B, C) as TupleSplitAt<1>>::spec_split_at(t),
        <(A, B, C) as TupleSplitIntoRight<(B, C)>>::spec_split_into_right(t)
            == <(A, B, C) as TupleSplitAt<1>>::spec_split_at(t),
        <(A, B, C) as TupleSplitIntoLeft<(A, B)>>::spec_split_into_left(t)
            == <(A, B, C) as TupleSplitAt<2>>::spec_split_at(t),
        <(A, B, C) as TupleSplitIntoRight<(C,)>>::spec_split_into_right(t)
            == <(A, B, C) as TupleSplitAt<2>>::spec_split_at(t),
        <(A, B, C) as TupleSplitIntoLeft<(A, B, C)>>::spec_split_into_left(t)
            == <(A, B, C) as TupleSplitAt<3>>::spec_split_at(t),
        <(A, B, C) as TupleSplitIntoRight<()>>::spec_split_into_right(t)
            == <(A, B, C) as TupleSplitAt<3>>::spec_split_at(t),
{
}

/// Splitting by a prefix shape and splitting by the complementary suffix
/// shape produce identical left and right parts, for every split point of
/// the arity.
pub proof fn lemma_cross_consistency<A, B, C>(t: (A, B, C))
    ensures
        <(A, B, C) as TupleSplitIntoLeft<()>>::spec_split_into_left(t)
            == <(A, B, C) as TupleSplitIntoRight<(A, B, C)>>::spec_split_into_right(t),
        <(A, B, C) as TupleSplitIntoLeft<(A,)>>::spec_split_into_left(t)
            == <(A, B, C) as TupleSplitIntoRight<(B, C)>>::spec_split_into_right(t),
        <(A, B, C) as TupleSplitIntoLeft<(A, B)>>::spec_split_into_left(t)
            == <(A, B, C) as TupleSplitIntoRight<(C,)>>::spec_split_into_right(t),
        <(A, B, C) as TupleSplitIntoLeft<(A, B, C)>>::spec_split_into_left(t)
            == <(A, B, C) as TupleSplitIntoRight<()>>::spec_split_into_right(t),
{
}

} // verus!
