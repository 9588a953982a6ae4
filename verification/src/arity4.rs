//! Split specializations for a tuple of four elements.

use vstd::prelude::*;

use crate::TupleSplitAt;
use crate::TupleSplitIntoLeft;
use crate::TupleSplitIntoRight;

verus! {

impl<A, B, C, D> TupleSplitAt<0> for (A, B, C, D) {
    type Left = ();
    type Right = (A, B, C, D);

    open spec fn spec_split_at(self) -> ((), (A, B, C, D)) {
        ((), (self.0, self.1, self.2, self.3))
    }

    open spec fn spec_concat(left: (), right: (A, B, C, D)) -> (A, B, C, D) {
        (right.0, right.1, right.2, right.3)
    }

    proof fn lemma_split_concat(self) {
    }

    proof fn lemma_concat_split(left: (), right: (A, B, C, D)) {
    }

    fn split_tuple_at(self) -> (r: ((), (A, B, C, D))) {
        let (a, b, c, d) = self;
        ((), (a, b, c, d))
    }
}

impl<A, B, C, D> TupleSplitIntoLeft<()> for (A, B, C, D) {
    type Right = (A, B, C, D);

    open spec fn spec_split_into_left(self) -> ((), (A, B, C, D)) {
        ((), (self.0, self.1, self.2, self.3))
    }

    fn split_tuple_into_left(self) -> (r: ((), (A, B, C, D))) {
        let (a, b, c, d) = self;
        ((), (a, b, c, d))
    }
}

impl<A, B, C, D> TupleSplitIntoRight<(A, B, C, D)> for (A, B, C, D) {
    type Left = ();

    open spec fn spec_split_into_right(self) -> ((), (A, B, C, D)) {
        ((), (self.0, self.1, self.2, self.3))
    }

    fn split_tuple_into_right(self) -> (r: ((), (A, B, C, D))) {
        let (a, b, c, d) = self;
        ((), (a, b, c, d))
    }
}

impl<A, B, C, D> TupleSplitAt<1> for (A, B, C, D) {
    type Left = (A,);
    type Right = (B, C, D);

    open spec fn spec_split_at(self) -> ((A,), (B, C, D)) {
        ((self.0,), (self.1, self.2, self.3))
    }

    open spec fn spec_concat(left: (A,), right: (B, C, D)) -> (A, B, C, D) {
        (left.0, right.0, right.1, right.2)
    }

    proof fn lemma_split_concat(self) {
    }

    proof fn lemma_concat_split(left: (A,), right: (B, C, D)) {
    }

    fn split_tuple_at(self) -> (r: ((A,), (B, C, D))) {
        let (a, b, c, d) = self;
        ((a,), (b, c, d))
    }
}

impl<A, B, C, D> TupleSplitIntoLeft<(A,)> for (A, B, C, D) {
    type Right = (B, C, D);

    open spec fn spec_split_into_left(self) -> ((A,), (B, C, D)) {
        ((self.0,), (self.1, self.2, self.3))
    }

    fn split_tuple_into_left(self) -> (r: ((A,), (B, C, D))) {
        let (a, b, c, d) = self;
        ((a,), (b, c, d))
    }
}

impl<A, B, C, D> TupleSplitIntoRight<(B, C, D)> for (A, B, C, D) {
    type Left = (A,);

    open spec fn spec_split_into_right(self) -> ((A,), (B, C, D)) {
        ((self.0,), (self.1, self.2, self.3))
    }

    fn split_tuple_into_right(self) -> (r: ((A,), (B, C, D))) {
        let (a, b, c, d) = self;
        ((a,), (b, c, d))
    }
}

impl<A, B, C, D> TupleSplitAt<2> for (A, B, C, D) {
    type Left = (A, B);
    type Right = (C, D);

    open spec fn spec_split_at(self) -> ((A, B), (C, D)) {
        ((self.0, self.1), (self.2, self.3))
    }

    open spec fn spec_concat(left: (A, B), right: (C, D)) -> (A, B, C, D) {
        (left.0, left.1, right.0, right.1)
    }

    proof fn lemma_split_concat(self) {
    }

    proof fn lemma_concat_split(left: (A, B), right: (C, D)) {
    }

    fn split_tuple_at(self) -> (r: ((A, B), (C, D))) {
        let (a, b, c, d) = self;
        ((a, b), (c, d))
    }
}

impl<A, B, C, D> TupleSplitIntoLeft<(A, B)> for (A, B, C, D) {
    type Right = (C, D);

    open spec fn spec_split_into_left(self) -> ((A, B), (C, D)) {
        ((self.0, self.1), (self.2, self.3))
    }

    fn split_tuple_into_left(self) -> (r: ((A, B), (C, D))) {
        let (a, b, c, d) = self;
        ((a, b), (c, d))
    }
}

impl<A, B, C, D> TupleSplitIntoRight<(C, D)> for (A, B, C, D) {
    type Left = (A, B);

    open spec fn spec_split_into_right(self) -> ((A, B), (C, D)) {
        ((self.0, self.1), (self.2, self.3))
    }

    fn split_tuple_into_right(self) -> (r: ((A, B), (C, D))) {
        let (a, b, c, d) = self;
        ((a, b), (c, d))
    }
}

impl<A, B, C, D> TupleSplitAt<3> for (A, B, C, D) {
    type Left = (A, B, C);
    type Right = (D,);

    open spec fn spec_split_at(self) -> ((A, B, C), (D,)) {
        ((self.0, self.1, self.2), (self.3,))
    }

    open spec fn spec_concat(left: (A, B, C), right: (D,)) -> (A, B, C, D) {
        (left.0, left.1, left.2, right.0)
    }

    proof fn lemma_split_concat(self) {
    }

    proof fn lemma_concat_split(left: (A, B, C), right: (D,)) {
    }

    fn split_tuple_at(self) -> (r: ((A, B, C), (D,))) {
        let (a, b, c, d) = self;
        ((a, b, c), (d,))
    }
}

impl<A, B, C, D> TupleSplitIntoLeft<(A, B, C)> for (A, B, C, D) {
    type Right = (D,);

    open spec fn spec_split_into_left(self) -> ((A, B, C), (D,)) {
        ((self.0, self.1, self.2), (self.3,))
    }

    fn split_tuple_into_left(self) -> (r: ((A, B, C), (D,))) {
        let (a, b, c, d) = self;
        ((a, b, c), (d,))
    }
}

impl<A, B, C, D> TupleSplitIntoRight<(D,)> for (A, B, C, D) {
    type Left = (A, B, C);

    open spec fn spec_split_into_right(self) -> ((A, B, C), (D,)) {
        ((self.0, self.1, self.2), (self.3,))
    }

    fn split_tuple_into_right(self) -> (r: ((A, B, C), (D,))) {
        let (a, b, c, d) = self;
        ((a, b, c), (d,))
    }
}

impl<A, B, C, D> TupleSplitAt<4> for (A, B, C, D) {
    type Left = (A, B, C, D);
    type Right = ();

    open spec fn spec_split_at(self) -> ((A, B, C, D), ()) {
        ((self.0, self.1, self.2, self.3), ())
    }

    open spec fn spec_concat(left: (A, B, C, D), right: ()) -> (A, B, C, D) {
        (left.0, left.1, left.2, left.3)
    }

    proof fn lemma_split_concat(self) {
    }

    proof fn lemma_concat_split(left: (A, B, C, D), right: ()) {
    }

    fn split_tuple_at(self) -> (r: ((A, B, C, D), ())) {
        let (a, b, c, d) = self;
        ((a, b, c, d), ())
    }
}

impl<A, B, C, D> TupleSplitIntoLeft<(A, B, C, D)> for (A, B, C, D) {
    type Right = ();

    open spec fn spec_split_into_left(self) -> ((A, B, C, D), ()) {
        ((self.0, self.1, self.2, self.3), ())
    }

    fn split_tuple_into_left(self) -> (r: ((A, B, C, D), ())) {
        let (a, b, c, d) = self;
        ((a, b, c, d), ())
    }
}

impl<A, B, C, D> TupleSplitIntoRight<()> for (A, B, C, D) {
    type Left = (A, B, C, D);

    open spec fn spec_split_into_right(self) -> ((A, B, C, D), ()) {
        ((self.0, self.1, self.2, self.3), ())
    }

    fn split_tuple_into_right(self) -> (r: ((A, B, C, D), ())) {
        let (a, b, c, d) = self;
        ((a, b, c, d), ())
    }
}

/// Splitting at index zero leaves the left part empty and the right part
/// equal to the whole source; splitting at the arity leaves the left part
/// equal to the whole source and the right part empty.
pub proof fn lemma_boundary<A, B, C, D>(t: (A, B, C, D))
    ensures
        <(A, B, C, D) as TupleSplitAt<0>>::spec_split_at(t) == (((), t)),
        <(A, B, C, D) as TupleSplitAt<4>>::spec_split_at(t) == ((t, ())),
{
}

/// Splitting by the prefix shape of the first `k` element types, or by the
/// suffix shape of the remaining element types, agrees with splitting at
/// index `k`, for every split point `k` of the arity.
pub proof fn lemma_shape_index_equivalence<A, B, C, D>(t: (A, B, C, D))
    ensures
        <(A, B, C, D) as TupleSplitIntoLeft<()>>::spec_split_into_left(t)
            == <(A, B, C, D) as TupleSplitAt<0>>::spec_split_at(t),
        <(A, B, C, D) as TupleSplitIntoRight<(A, B, C, D)>>::spec_split_into_right(t)
            == <(A, B, C, D) as TupleSplitAt<0>>::spec_split_at(t),
        <(A, B, C, D) as TupleSplitIntoLeft<(A,)>>::spec_split_into_left(t)
            == <(A, B, C, D) as TupleSplitAt<1>>::spec_split_at(t),
        <(A, B, C, D) as TupleSplitIntoRight<(B, C, D)>>::spec_split_into_right(t)
            == <(A, B, C, D) as TupleSplitAt<1>>::spec_split_at(t),
        <(A, B, C, D) as TupleSplitIntoLeft<(A, B)>>::spec_split_into_left(t)
            == <(A, B, C, D) as TupleSplitAt<2>>::spec_split_at(t),
        <(A, B, C, D) as TupleSplitIntoRight<(C, D)>>::spec_split_into_right(t)
            == <(A, B, C, D) as TupleSplitAt<2>>::spec_split_at(t),
        <(A, B, C, D) as TupleSplitIntoLeft<(A, B, C)>>::spec_split_into_left(t)
            == <(A, B, C, D) as TupleSplitAt<3>>::spec_split_at(t),
        <(A, B, C, D) as TupleSplitIntoRight<(D,)>>::spec_split_into_right(t)
            == <(A, B, C, D) as TupleSplitAt<3>>::spec_split_at(t),
        <(A, B, C, D) as TupleSplitIntoLeft<(A, B, C, D)>>::spec_split_into_left(t)
            == <(A, B, C, D) as TupleSplitAt<4>>::spec_split_at(t),
        <(A, B, C, D) as TupleSplitIntoRight<()>>::spec_split_into_right(t)
            == <(A, B, C, D) as TupleSplitAt<4>>::spec_split_at(t),
{
}

/// Splitting by a prefix shape and splitting by the complementary suffix
/// shape produce identical left and right parts, for every split point of
/// the arity.
pub proof fn lemma_cross_consistency<A, B, C, D>(t: (A, B, C, D))
    ensures
        <(A, B, C, D) as TupleSplitIntoLeft<()>>::spec_split_into_left(t)
            == <(A, B, C, D) as TupleSplitIntoRight<(A, B, C, D)>>::spec_split_into_right(t),
        <(A, B, C, D) as TupleSplitIntoLeft<(A,)>>::spec_split_into_left(t)
            == <(A, B, C, D) as TupleSplitIntoRight<(B, C, D)>>::spec_split_into_right(t),
        <(A, B, C, D) as TupleSplitIntoLeft<(A, B)>>::spec_split_into_left(t)
            == <(A, B, C, D) as TupleSplitIntoRight<(C, D)>>::spec_split_into_right(t),
        <(A, B, C, D) as TupleSplitIntoLeft<(A, B, C)>>::spec_split_into_left(t)
            == <(A, B, C, D) as TupleSplitIntoRight<(D,)>>::spec_split_into_right(t),
        <(A, B, C, D) as TupleSplitIntoLeft<(A, B, C, D)>>::spec_split_into_left(t)
            == <(A, B, C, D) as TupleSplitIntoRight<()>>::spec_split_into_right(t),
{
}

} // verus!
