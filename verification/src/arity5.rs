//! Split specializations for a tuple of five elements.

use vstd::prelude::*;

use crate::TupleSplitAt;
use crate::TupleSplitIntoLeft;
use crate::TupleSplitIntoRight;

verus! {

impl<A, B, C, D, E> TupleSplitAt<0> for (A, B, C, D, E) {
    type Left = ();
    type Right = (A, B, C, D, E);

    open spec fn spec_split_at(self) -> ((), (A, B, C, D, E)) {
        ((), (self.0, self.1, self.2, self.3, self.4))
    }

    open spec fn spec_concat(left: (), right: (A, B, C, D, E)) -> (A, B, C, D, E) {
        (right.0, right.1, right.2, right.3, right.4)
    }

    proof fn lemma_split_concat(self) {
    }

    proof fn lemma_concat_split(left: (), right: (A, B, C, D, E)) {
    }

    fn split_tuple_at(self) -> (r: ((), (A, B, C, D, E))) {
        let (a, b, c, d, e) = self;
        ((), (a, b, c, d, e))
    }
}

impl<A, B, C, D, E> TupleSplitIntoLeft<()> for (A, B, C, D, E) {
    type Right = (A, B, C, D, E);

    open spec fn spec_split_into_left(self) -> ((), (A, B, C, D, E)) {
        ((), (self.0, self.1, self.2, self.3, self.4))
    }

    fn split_tuple_into_left(self) -> (r: ((), (A, B, C, D, E))) {
        let (a, b, c, d, e) = self;
        ((), (a, b, c, d, e))
    }
}

impl<A, B, C, D, E> TupleSplitIntoRight<(A, B, C, D, E)> for (A, B, C, D, E) {
    type Left = ();

    open spec fn spec_split_into_right(self) -> ((), (A, B, C, D, E)) {
        ((), (self.0, self.1, self.2, self.3, self.4))
    }

    fn split_tuple_into_right(self) -> (r: ((), (A, B, C, D, E))) {
        let (a, b, c, d, e) = self;
        ((), (a, b, c, d, e))
    }
}

impl<A, B, C, D, E> TupleSplitAt<1> for (A, B, C, D, E) {
    type Left = (A,);
    type Right = (B, C, D, E);

    open spec fn spec_split_at(self) -> ((A,), (B, C, D, E)) {
        ((self.0,), (self.1, self.2, self.3, self.4))
    }

    open spec fn spec_concat(left: (A,), right: (B, C, D, E)) -> (A, B, C, D, E) {
        (left.0, right.0, right.1, right.2, right.3)
    }

    proof fn lemma_split_concat(self) {
    }

    proof fn lemma_concat_split(left: (A,), right: (B, C, D, E)) {
    }

    fn split_tuple_at(self) -> (r: ((A,), (B, C, D, E))) {
        let (a, b, c, d, e) = self;
        ((a,), (b, c, d, e))
    }
}

impl<A, B, C, D, E> TupleSplitIntoLeft<(A,)> for (A, B, C, D, E) {
    type Right = (B, C, D, E);

    open spec fn spec_split_into_left(self) -> ((A,), (B, C, D, E)) {
        ((self.0,), (self.1, self.2, self.3, self.4))
    }

    fn split_tuple_into_left(self) -> (r: ((A,), (B, C, D, E))) {
        let (a, b, c, d, e) = self;
        ((a,), (b, c, d, e))
    }
}

impl<A, B, C, D, E> TupleSplitIntoRight<(B, C, D, E)> for (A, B, C, D, E) {
    type Left = (A,);

    open spec fn spec_split_into_right(self) -> ((A,), (B, C, D, E)) {
        ((self.0,), (self.1, self.2, self.3, self.4))
    }

    fn split_tuple_into_right(self) -> (r: ((A,), (B, C, D, E))) {
        let (a, b, c, d, e) = self;
        ((a,), (b, c, d, e))
    }
}

impl<A, B, C, D, E> TupleSplitAt<2> for (A, B, C, D, E) {
    type Left = (A, B);
    type Right = (C, D, E);

    open spec fn spec_split_at(self) -> ((A, B), (C, D, E)) {
        ((self.0, self.1), (self.2, self.3, self.4))
    }

    open spec fn spec_concat(left: (A, B), right: (C, D, E)) -> (A, B, C, D, E) {
        (left.0, left.1, right.0, right.1, right.2)
    }

    proof fn lemma_split_concat(self) {
    }

    proof fn lemma_concat_split(left: (A, B), right: (C, D, E)) {
    }

    fn split_tuple_at(self) -> (r: ((A, B), (C, D, E))) {
        let (a, b, c, d, e) = self;
        ((a, b), (c, d, e))
    }
}

impl<A, B, C, D, E> TupleSplitIntoLeft<(A, B)> for (A, B, C, D, E) {
    type Right = (C, D, E);

    open spec fn spec_split_into_left(self) -> ((A, B), (C, D, E)) {
        ((self.0, self.1), (self.2, self.3, self.4))
    }

    fn split_tuple_into_left(self) -> (r: ((A, B), (C, D, E))) {
        let (a, b, c, d, e) = self;
        ((a, b), (c, d, e))
    }
}

impl<A, B, C, D, E> TupleSplitIntoRight<(C, D, E)> for (A, B, C, D, E) {
    type Left = (A, B);

    open spec fn spec_split_into_right(self) -> ((A, B), (C, D, E)) {
        ((self.0, self.1), (self.2, self.3, self.4))
    }

    fn split_tuple_into_right(self) -> (r: ((A, B), (C, D, E))) {
        let (a, b, c, d, e) = self;
        ((a, b), (c, d, e))
    }
}

impl<A, B, C, D, E> TupleSplitAt<3> for (A, B, C, D, E) {
    type Left = (A, B, C);
    type Right = (D, E);

    open spec fn spec_split_at(self) -> ((A, B, C), (D, E)) {
        ((self.0, self.1, self.2), (self.3, self.4))
    }

    open spec fn spec_concat(left: (A, B, C), right: (D, E)) -> (A, B, C, D, E) {
        (left.0, left.1, left.2, right.0, right.1)
    }

    proof fn lemma_split_concat(self) {
    }

    proof fn lemma_concat_split(left: (A, B, C), right: (D, E)) {
    }

    fn split_tuple_at(self) -> (r: ((A, B, C), (D, E))) {
        let (a, b, c, d, e) = self;
        ((a, b, c), (d, e))
    }
}

impl<A, B, C, D, E> TupleSplitIntoLeft<(A, B, C)> for (A, B, C, D, E) {
    type Right = (D, E);

    open spec fn spec_split_into_left(self) -> ((A, B, C), (D, E)) {
        ((self.0, self.1, self.2), (self.3, self.4))
    }

    fn split_tuple_into_left(self) -> (r: ((A, B, C), (D, E))) {
        let (a, b, c, d, e) = self;
        ((a, b, c), (d, e))
    }
}

impl<A, B, C, D, E> TupleSplitIntoRight<(D, E)> for (A, B, C, D, E) {
    type Left = (A, B, C);

    open spec fn spec_split_into_right(self) -> ((A, B, C), (D, E)) {
        ((self.0, self.1, self.2), (self.3, self.4))
    }

    fn split_tuple_into_right(self) -> (r: ((A, B, C), (D, E))) {
        let (a, b, c, d, e) = self;
        ((a, b, c), (d, e))
    }
}

impl<A, B, C, D, E> TupleSplitAt<4> for (A, B, C, D, E) {
    type Left = (A, B, C, D);
    type Right = (E,);

    open spec fn spec_split_at(self) -> ((A, B, C, D), (E,)) {
        ((self.0, self.1, self.2, self.3), (self.4,))
    }

    open spec fn spec_concat(left: (A, B, C, D), right: (E,)) -> (A, B, C, D, E) {
        (left.0, left.1, left.2, left.3, right.0)
    }

    proof fn lemma_split_concat(self) {
    }

    proof fn lemma_concat_split(left: (A, B, C, D), right: (E,)) {
    }

    fn split_tuple_at(self) -> (r: ((A, B, C, D), (E,))) {
        let (a, b, c, d, e) = self;
        ((a, b, c, d), (e,))
    }
}

impl<A, B, C, D, E> TupleSplitIntoLeft<(A, B, C, D)> for (A, B, C, D, E) {
    type Right = (E,);

    open spec fn spec_split_into_left(self) -> ((A, B, C, D), (E,)) {
        ((self.0, self.1, self.2, self.3), (self.4,))
    }

    fn split_tuple_into_left(self) -> (r: ((A, B, C, D), (E,))) {
        let (a, b, c, d, e) = self;
        ((a, b, c, d), (e,))
    }
}

impl<A, B, C, D, E> TupleSplitIntoRight<(E,)> for (A, B, C, D, E) {
    type Left = (A, B, C, D);

    open spec fn spec_split_into_right(self) -> ((A, B, C, D), (E,)) {
        ((self.0, self.1, self.2, self.3), (self.4,))
    }

    fn split_tuple_into_right(self) -> (r: ((A, B, C, D), (E,))) {
        let (a, b, c, d, e) = self;
        ((a, b, c, d), (e,))
    }
}

impl<A, B, C, D, E> TupleSplitAt<5> for (A, B, C, D, E) {
    type Left = (A, B, C, D, E);
    type Right = ();

    open spec fn spec_split_at(self) -> ((A, B, C, D, E), ()) {
        ((self.0, self.1, self.2, self.3, self.4), ())
    }

    open spec fn spec_concat(left: (A, B, C, D, E), right: ()) -> (A, B, C, D, E) {
        (left.0, left.1, left.2, left.3, left.4)
    }

    proof fn lemma_split_concat(self) {
    }

    proof fn lemma_concat_split(left: (A, B, C, D, E), right: ()) {
    }

    fn split_tuple_at(self) -> (r: ((A, B, C, D, E), ())) {
        let (a, b, c, d, e) = self;
        ((a, b, c, d, e), ())
    }
}

impl<A, B, C, D, E> TupleSplitIntoLeft<(A, B, C, D, E)> for (A, B, C, D, E) {
    type Right = ();

    open spec fn spec_split_into_left(self) -> ((A, B, C, D, E), ()) {
        ((self.0, self.1, self.2, self.3, self.4), ())
    }

    fn split_tuple_into_left(self) -> (r: ((A, B, C, D, E), ())) {
        let (a, b, c, d, e) = self;
        ((a, b, c, d, e), ())
    }
}

impl<A, B, C, D, E> TupleSplitIntoRight<()> for (A, B, C, D, E) {
    type Left = (A, B, C, D, E);

    open spec fn spec_split_into_right(self) -> ((A, B, C, D, E), ()) {
        ((self.0, self.1, self.2, self.3, self.4), ())
    }

    fn split_tuple_into_right(self) -> (r: ((A, B, C, D, E), ())) {
        let (a, b, c, d, e) = self;
        ((a, b, c, d, e), ())
    }
}

/// Splitting at index zero leaves the left part empty and the right part
/// equal to the whole source; splitting at the arity leaves the left part
/// equal to the whole source and the right part empty.
pub proof fn lemma_boundary<A, B, C, D, E>(t: (A, B, C, D, E))
    ensures
        <(A, B, C, D, E) as TupleSplitAt<0>>::spec_split_at(t) == (((), t)),
        <(A, B, C, D, E) as TupleSplitAt<5>>::spec_split_at(t) == ((t, ())),
{
}

/// Splitting by the prefix shape of the first `k` element types, or by the
/// suffix shape of the remaining element types, agrees with splitting at
/// index `k`, for every split point `k` of the arity.
pub proof fn lemma_shape_index_equivalence<A, B, C, D, E>(t: (A, B, C, D, E))
    ensures
        <(A, B, C, D, E) as TupleSplitIntoLeft<()>>::spec_split_into_left(t)
            == <(A, B, C, D, E) as TupleSplitAt<0>>::spec_split_at(t),
        <(A, B, C, D, E) as TupleSplitIntoRight<(A, B, C, D, E)>>::spec_split_into_right(t)
            == <(A, B, C, D, E) as TupleSplitAt<0>>::spec_split_at(t),
        <(A, B, C, D, E) as TupleSplitIntoLeft<(A,)>>::spec_split_into_left(t)
            == <(A, B, C, D, E) as TupleSplitAt<1>>::spec_split_at(t),
        <(A, B, C, D, E) as TupleSplitIntoRight<(B, C, D, E)>>::spec_split_into_right(t)
            == <(A, B, C, D, E) as TupleSplitAt<1>>::spec_split_at(t),
        <(A, B, C, D, E) as TupleSplitIntoLeft<(A, B)>>::spec_split_into_left(t)
            == <(A, B, C, D, E) as TupleSplitAt<2>>::spec_split_at(t),
        <(A, B, C, D, E) as TupleSplitIntoRight<(C, D, E)>>::spec_split_into_right(t)
            == <(A, B, C, D, E) as TupleSplitAt<2>>::spec_split_at(t),
        <(A, B, C, D, E) as TupleSplitIntoLeft<(A, B, C)>>::spec_split_into_left(t)
            == <(A, B, C, D, E) as TupleSplitAt<3>>::spec_split_at(t),
        <(A, B, C, D, E) as TupleSplitIntoRight<(D, E)>>::spec_split_into_right(t)
            == <(A, B, C, D, E) as TupleSplitAt<3>>::spec_split_at(t),
        <(A, B, C, D, E) as TupleSplitIntoLeft<(A, B, C, D)>>::spec_split_into_left(t)
            == <(A, B, C, D, E) as TupleSplitAt<4>>::spec_split_at(t),
        <(A, B, C, D, E) as TupleSplitIntoRight<(E,)>>::spec_split_into_right(t)
            == <(A, B, C, D, E) as TupleSplitAt<4>>::spec_split_at(t),
        <(A, B, C, D, E) as TupleSplitIntoLeft<(A, B, C, D, E)>>::spec_split_into_left(t)
            == <(A, B, C, D, E) as TupleSplitAt<5>>::spec_split_at(t),
        <(A, B, C, D, E) as TupleSplitIntoRight<()>>::spec_split_into_right(t)
            == <(A, B, C, D, E) as TupleSplitAt<5>>::spec_split_at(t),
{
}

/// Splitting by a prefix shape and splitting by the complementary suffix
/// shape produce identical left and right parts, for every split point of
/// the arity.
pub proof fn lemma_cross_consistency<A, B, C, D, E>(t: (A, B, C, D, E))
    ensures
        <(A, B, C, D, E) as TupleSplitIntoLeft<()>>::spec_split_into_left(t)
            == <(A, B, C, D, E) as TupleSplitIntoRight<(A, B, C, D, E)>>::spec_split_into_right(t),
        <(A, B, C, D, E) as TupleSplitIntoLeft<(A,)>>::spec_split_into_left(t)
            == <(A, B, C, D, E) as TupleSplitIntoRight<(B, C, D, E)>>::spec_split_into_right(t),
        <(A, B, C, D, E) as TupleSplitIntoLeft<(A, B)>>::spec_split_into_left(t)
            == <(A, B, C, D, E) as TupleSplitIntoRight<(C, D, E)>>::spec_split_into_right(t),
        <(A, B, C, D, E) as TupleSplitIntoLeft<(A, B, C)>>::spec_split_into_left(t)
            == <(A, B, C, D, E) as TupleSplitIntoRight<(D, E)>>::spec_split_into_right(t),
        <(A, B, C, D, E) as TupleSplitIntoLeft<(A, B, C, D)>>::spec_split_into_left(t)
            == <(A, B, C, D, E) as TupleSplitIntoRight<(E,)>>::spec_split_into_right(t),
        <(A, B, C, D, E) as TupleSplitIntoLeft<(A, B, C, D, E)>>::spec_split_into_left(t)
            == <(A, B, C, D, E) as TupleSplitIntoRight<()>>::spec_split_into_right(t),
{
}

} // verus!
