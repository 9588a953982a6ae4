//! Split specializations for a tuple of seven elements.

use vstd::prelude::*;

use crate::TupleSplitAt;
use crate::TupleSplitIntoLeft;
use crate::TupleSplitIntoRight;

verus! {

impl<A, B, C, D, E, F, G> TupleSplitAt<0> for (A, B, C, D, E, F, G) {
    type Left = ();
    type Right = (A, B, C, D, E, F, G);

    open spec fn spec_split_at(self) -> ((), (A, B, C, D, E, F, G)) {
        ((), (self.0, self.1, self.2, self.3, self.4, self.5, self.6))
    }

    open spec fn spec_concat(left: (), right: (A, B, C, D, E, F, G)) -> (A, B, C, D, E, F, G) {
        (right.0, right.1, right.2, right.3, right.4, right.5, right.6)
    }

    proof fn lemma_split_concat(self) {
    }

    proof fn lemma_concat_split(left: (), right: (A, B, C, D, E, F, G)) {
    }

    fn split_tuple_at(self) -> (r: ((), (A, B, C, D, E, F, G))) {
        let (a, b, c, d, e, f, g) = self;
        ((), (a, b, c, d, e, f, g))
    }
}

impl<A, B, C, D, E, F, G> TupleSplitIntoLeft<()> for (A, B, C, D, E, F, G) {
    type Right = (A, B, C, D, E, F, G);

    open spec fn spec_split_into_left(self) -> ((), (A, B, C, D, E, F, G)) {
        ((), (self.0, self.1, self.2, self.3, self.4, self.5, self.6))
    }

    fn split_tuple_into_left(self) -> (r: ((), (A, B, C, D, E, F, G))) {
        let (a, b, c, d, e, f, g) = self;
        ((), (a, b, c, d, e, f, g))
    }
}

impl<A, B, C, D, E, F, G> TupleSplitIntoRight<(A, B, C, D, E, F, G)> for (A, B, C, D, E, F, G) {
    type Left = ();

    open spec fn spec_split_into_right(self) -> ((), (A, B, C, D, E, F, G)) {
        ((), (self.0, self.1, self.2, self.3, self.4, self.5, self.6))
    }

    fn split_tuple_into_right(self) -> (r: ((), (A, B, C, D, E, F, G))) {
        let (a, b, c, d, e, f, g) = self;
        ((), (a, b, c, d, e, f, g))
    }
}

impl<A, B, C, D, E, F, G> TupleSplitAt<1> for (A, B, C, D, E, F, G) {
    type Left = (A,);
    type Right = (B, C, D, E, F, G);

    open spec fn spec_split_at(self) -> ((A,), (B, C, D, E, F, G)) {
        ((self.0,), (self.1, self.2, self.3, self.4, self.5, self.6))
    }

    open spec fn spec_concat(left: (A,), right: (B, C, D, E, F, G)) -> (A, B, C, D, E, F, G) {
        (left.0, right.0, right.1, right.2, right.3, right.4, right.5)
    }

    proof fn lemma_split_concat(self) {
    }

    proof fn lemma_concat_split(left: (A,), right: (B, C, D, E, F, G)) {
    }

    fn split_tuple_at(self) -> (r: ((A,), (B, C, D, E, F, G))) {
        let (a, b, c, d, e, f, g) = self;
        ((a,), (b, c, d, e, f, g))
    }
}

impl<A, B, C, D, E, F, G> TupleSplitIntoLeft<(A,)> for (A, B, C, D, E, F, G) {
    type Right = (B, C, D, E, F, G);

    open spec fn spec_split_into_left(self) -> ((A,), (B, C, D, E, F, G)) {
        ((self.0,), (self.1, self.2, self.3, self.4, self.5, self.6))
    }

    fn split_tuple_into_left(self) -> (r: ((A,), (B, C, D, E, F, G))) {
        let (a, b, c, d, e, f, g) = self;
        ((a,), (b, c, d, e, f, g))
    }
}

impl<A, B, C, D, E, F, G> TupleSplitIntoRight<(B, C, D, E, F, G)> for (A, B, C, D, E, F, G) {
    type Left = (A,);

    open spec fn spec_split_into_right(self) -> ((A,), (B, C, D, E, F, G)) {
        ((self.0,), (self.1, self.2, self.3, self.4, self.5, self.6))
    }

    fn split_tuple_into_right(self) -> (r: ((A,), (B, C, D, E, F, G))) {
        let (a, b, c, d, e, f, g) = self;
        ((a,), (b, c, d, e, f, g))
    }
}

impl<A, B, C, D, E, F, G> TupleSplitAt<2> for (A, B, C, D, E, F, G) {
    type Left = (A, B);
    type Right = (C, D, E, F, G);

    open spec fn spec_split_at(self) -> ((A, B), (C, D, E, F, G)) {
        ((self.0, self.1), (self.2, self.3, self.4, self.5, self.6))
    }

    open spec fn spec_concat(left: (A, B), right: (C, D, E, F, G)) -> (A, B, C, D, E, F, G) {
        (left.0, left.1, right.0, right.1, right.2, right.3, right.4)
    }

    proof fn lemma_split_concat(self) {
    }

    proof fn lemma_concat_split(left: (A, B), right: (C, D, E, F, G)) {
    }

    fn split_tuple_at(self) -> (r: ((A, B), (C, D, E, F, G))) {
        let (a, b, c, d, e, f, g) = self;
        ((a, b), (c, d, e, f, g))
    }
}

impl<A, B, C, D, E, F, G> TupleSplitIntoLeft<(A, B)> for (A, B, C, D, E, F, G) {
    type Right = (C, D, E, F, G);

    open spec fn spec_split_into_left(self) -> ((A, B), (C, D, E, F, G)) {
        ((self.0, self.1), (self.2, self.3, self.4, self.5, self.6))
    }

    fn split_tuple_into_left(self) -> (r: ((A, B), (C, D, E, F, G))) {
        let (a, b, c, d, e, f, g) = self;
        ((a, b), (c, d, e, f, g))
    }
}

impl<A, B, C, D, E, F, G> TupleSplitIntoRight<(C, D, E, F, G)> for (A, B, C, D, E, F, G) {
    type Left = (A, B);

    open spec fn spec_split_into_right(self) -> ((A, B), (C, D, E, F, G)) {
        ((self.0, self.1), (self.2, self.3, self.4, self.5, self.6))
    }

    fn split_tuple_into_right(self) -> (r: ((A, B), (C, D, E, F, G))) {
        let (a, b, c, d, e, f, g) = self;
        ((a, b), (c, d, e, f, g))
    }
}

impl<A, B, C, D, E, F, G> TupleSplitAt<3> for (A, B, C, D, E, F, G) {
    type Left = (A, B, C);
    type Right = (D, E, F, G);

    open spec fn spec_split_at(self) -> ((A, B, C), (D, E, F, G)) {
        ((self.0, self.1, self.2), (self.3, self.4, self.5, self.6))
    }

    open spec fn spec_concat(left: (A, B, C), right: (D, E, F, G)) -> (A, B, C, D, E, F, G) {
        (left.0, left.1, left.2, right.0, right.1, right.2, right.3)
    }

    proof fn lemma_split_concat(self) {
    }

    proof fn lemma_concat_split(left: (A, B, C), right: (D, E, F, G)) {
    }

    fn split_tuple_at(self) -> (r: ((A, B, C), (D, E, F, G))) {
        let (a, b, c, d, e, f, g) = self;
        ((a, b, c), (d, e, f, g))
    }
}

impl<A, B, C, D, E, F, G> TupleSplitIntoLeft<(A, B, C)> for (A, B, C, D, E, F, G) {
    type Right = (D, E, F, G);

    open spec fn spec_split_into_left(self) -> ((A, B, C), (D, E, F, G)) {
        ((self.0, self.1, self.2), (self.3, self.4, self.5, self.6))
    }

    fn split_tuple_into_left(self) -> (r: ((A, B, C), (D, E, F, G))) {
        let (a, b, c, d, e, f, g) = self;
        ((a, b, c), (d, e, f, g))
    }
}

impl<A, B, C, D, E, F, G> TupleSplitIntoRight<(D, E, F, G)> for (A, B, C, D, E, F, G) {
    type Left = (A, B, C);

    open spec fn spec_split_into_right(self) -> ((A, B, C), (D, E, F, G)) {
        ((self.0, self.1, self.2), (self.3, self.4, self.5, self.6))
    }

    fn split_tuple_into_right(self) -> (r: ((A, B, C), (D, E, F, G))) {
        let (a, b, c, d, e, f, g) = self;
        ((a, b, c), (d, e, f, g))
    }
}

impl<A, B, C, D, E, F, G> TupleSplitAt<4> for (A, B, C, D, E, F, G) {
    type Left = (A, B, C, D);
    type Right = (E, F, G);

    open spec fn spec_split_at(self) -> ((A, B, C, D), (E, F, G)) {
        ((self.0, self.1, self.2, self.3), (self.4, self.5, self.6))
    }

    open spec fn spec_concat(left: (A, B, C, D), right: (E, F, G)) -> (A, B, C, D, E, F, G) {
        (left.0, left.1, left.2, left.3, right.0, right.1, right.2)
    }

    proof fn lemma_split_concat(self) {
    }

    proof fn lemma_concat_split(left: (A, B, C, D), right: (E, F, G)) {
    }

    fn split_tuple_at(self) -> (r: ((A, B, C, D), (E, F, G))) {
        let (a, b, c, d, e, f, g) = self;
        ((a, b, c, d), (e, f, g))
    }
}

impl<A, B, C, D, E, F, G> TupleSplitIntoLeft<(A, B, C, D)> for (A, B, C, D, E, F, G) {
    type Right = (E, F, G);

    open spec fn spec_split_into_left(self) -> ((A, B, C, D), (E, F, G)) {
        ((self.0, self.1, self.2, self.3), (self.4, self.5, self.6))
    }

    fn split_tuple_into_left(self) -> (r: ((A, B, C, D), (E, F, G))) {
        let (a, b, c, d, e, f, g) = self;
        ((a, b, c, d), (e, f, g))
    }
}

impl<A, B, C, D, E, F, G> TupleSplitIntoRight<(E, F, G)> for (A, B, C, D, E, F, G) {
    type Left = (A, B, C, D);

    open spec fn spec_split_into_right(self) -> ((A, B, C, D), (E, F, G)) {
        ((self.0, self.1, self.2, self.3), (self.4, self.5, self.6))
    }

    fn split_tuple_into_right(self) -> (r: ((A, B, C, D), (E, F, G))) {
        let (a, b, c, d, e, f, g) = self;
        ((a, b, c, d), (e, f, g))
    }
}

impl<A, B, C, D, E, F, G> TupleSplitAt<5> for (A, B, C, D, E, F, G) {
    type Left = (A, B, C, D, E);
    type Right = (F, G);

    open spec fn spec_split_at(self) -> ((A, B, C, D, E), (F, G)) {
        ((self.0, self.1, self.2, self.3, self.4), (self.5, self.6))
    }

    open spec fn spec_concat(left: (A, B, C, D, E), right: (F, G)) -> (A, B, C, D, E, F, G) {
        (left.0, left.1, left.2, left.3, left.4, right.0, right.1)
    }

    proof fn lemma_split_concat(self) {
    }

    proof fn lemma_concat_split(left: (A, B, C, D, E), right: (F, G)) {
    }

    fn split_tuple_at(self) -> (r: ((A, B, C, D, E), (F, G))) {
        let (a, b, c, d, e, f, g) = self;
        ((a, b, c, d, e), (f, g))
    }
}

impl<A, B, C, D, E, F, G> TupleSplitIntoLeft<(A, B, C, D, E)> for (A, B, C, D, E, F, G) {
    type Right = (F, G);

    open spec fn spec_split_into_left(self) -> ((A, B, C, D, E), (F, G)) {
        ((self.0, self.1, self.2, self.3, self.4), (self.5, self.6))
    }

    fn split_tuple_into_left(self) -> (r: ((A, B, C, D, E), (F, G))) {
        let (a, b, c, d, e, f, g) = self;
        ((a, b, c, d, e), (f, g))
    }
}

impl<A, B, C, D, E, F, G> TupleSplitIntoRight<(F, G)> for (A, B, C, D, E, F, G) {
    type Left = (A, B, C, D, E);

    open spec fn spec_split_into_right(self) -> ((A, B, C, D, E), (F, G)) {
        ((self.0, self.1, self.2, self.3, self.4), (self.5, self.6))
    }

    fn split_tuple_into_right(self) -> (r: ((A, B, C, D, E), (F, G))) {
        let (a, b, c, d, e, f, g) = self;
        ((a, b, c, d, e), (f, g))
    }
}

impl<A, B, C, D, E, F, G> TupleSplitAt<6> for (A, B, C, D, E, F, G) {
    type Left = (A, B, C, D, E, F);
    type Right = (G,);

    open spec fn spec_split_at(self) -> ((A, B, C, D, E, F), (G,)) {
        ((self.0, self.1, self.2, self.3, self.4, self.5), (self.6,))
    }

    open spec fn spec_concat(left: (A, B, C, D, E, F), right: (G,)) -> (A, B, C, D, E, F, G) {
        (left.0, left.1, left.2, left.3, left.4, left.5, right.0)
    }

    proof fn lemma_split_concat(self) {
    }

    proof fn lemma_concat_split(left: (A, B, C, D, E, F), right: (G,)) {
    }

    fn split_tuple_at(self) -> (r: ((A, B, C, D, E, F), (G,))) {
        let (a, b, c, d, e, f, g) = self;
        ((a, b, c, d, e, f), (g,))
    }
}

impl<A, B, C, D, E, F, G> TupleSplitIntoLeft<(A, B, C, D, E, F)> for (A, B, C, D, E, F, G) {
    type Right = (G,);

    open spec fn spec_split_into_left(self) -> ((A, B, C, D, E, F), (G,)) {
        ((self.0, self.1, self.2, self.3, self.4, self.5), (self.6,))
    }

    fn split_tuple_into_left(self) -> (r: ((A, B, C, D, E, F), (G,))) {
        let (a, b, c, d, e, f, g) = self;
        ((a, b, c, d, e, f), (g,))
    }
}

impl<A, B, C, D, E, F, G> TupleSplitIntoRight<(G,)> for (A, B, C, D, E, F, G) {
    type Left = (A, B, C, D, E, F);

    open spec fn spec_split_into_right(self) -> ((A, B, C, D, E, F), (G,)) {
        ((self.0, self.1, self.2, self.3, self.4, self.5), (self.6,))
    }

    fn split_tuple_into_right(self) -> (r: ((A, B, C, D, E, F), (G,))) {
        let (a, b, c, d, e, f, g) = self;
        ((a, b, c, d, e, f), (g,))
    }
}

impl<A, B, C, D, E, F, G> TupleSplitAt<7> for (A, B, C, D, E, F, G) {
    type Left = (A, B, C, D, E, F, G);
    type Right = ();

    open spec fn spec_split_at(self) -> ((A, B, C, D, E, F, G), ()) {
        ((self.0, self.1, self.2, self.3, self.4, self.5, self.6), ())
    }

    open spec fn spec_concat(left: (A, B, C, D, E, F, G), right: ()) -> (A, B, C, D, E, F, G) {
        (left.0, left.1, left.2, left.3, left.4, left.5, left.6)
    }

    proof fn lemma_split_concat(self) {
    }

    proof fn lemma_concat_split(left: (A, B, C, D, E, F, G), right: ()) {
    }

    fn split_tuple_at(self) -> (r: ((A, B, C, D, E, F, G), ())) {
        let (a, b, c, d, e, f, g) = self;
        ((a, b, c, d, e, f, g), ())
    }
}

impl<A, B, C, D, E, F, G> TupleSplitIntoLeft<(A, B, C, D, E, F, G)> for (A, B, C, D, E, F, G) {
    type Right = ();

    open spec fn spec_split_into_left(self) -> ((A, B, C, D, E, F, G), ()) {
        ((self.0, self.1, self.2, self.3, self.4, self.5, self.6), ())
    }

    fn split_tuple_into_left(self) -> (r: ((A, B, C, D, E, F, G), ())) {
        let (a, b, c, d, e, f, g) = self;
        ((a, b, c, d, e, f, g), ())
    }
}

impl<A, B, C, D, E, F, G> TupleSplitIntoRight<()> for (A, B, C, D, E, F, G) {
    type Left = (A, B, C, D, E, F, G);

    open spec fn spec_split_into_right(self) -> ((A, B, C, D, E, F, G), ()) {
        ((self.0, self.1, self.2, self.3, self.4, self.5, self.6), ())
    }

    fn split_tuple_into_right(self) -> (r: ((A, B, C, D, E, F, G), ())) {
        let (a, b, c, d, e, f, g) = self;
        ((a, b, c, d, e, f, g), ())
    }
}

/// Splitting at index zero leaves the left part empty and the right part
/// equal to the whole source; splitting at the arity leaves the left part
/// equal to the whole source and the right part empty.
pub proof fn lemma_boundary<A, B, C, D, E, F, G>(t: (A, B, C, D, E, F, G))
    ensures
        <(A, B, C, D, E, F, G) as TupleSplitAt<0>>::spec_split_at(t) == (((), t)),
        <(A, B, C, D, E, F, G) as TupleSplitAt<7>>::spec_split_at(t) == ((t, ())),
{
}

/// Splitting by the prefix shape of the first `k` element types, or by the
/// suffix shape of the remaining element types, agrees with splitting at
/// index `k`, for every split point `k` of the arity.
pub proof fn lemma_shape_index_equivalence<A, B, C, D, E, F, G>(t: (A, B, C, D, E, F, G))
    ensures
        <(A, B, C, D, E, F, G) as TupleSplitIntoLeft<()>>::spec_split_into_left(t)
            == <(A, B, C, D, E, F, G) as TupleSplitAt<0>>::spec_split_at(t),
        <(A, B, C, D, E, F, G) as TupleSplitIntoRight<(A, B, C, D, E, F, G)>>::spec_split_into_right(t)
            == <(A, B, C, D, E, F, G) as TupleSplitAt<0>>::spec_split_at(t),
        <(A, B, C, D, E, F, G) as TupleSplitIntoLeft<(A,)>>::spec_split_into_left(t)
            == <(A, B, C, D, E, F, G) as TupleSplitAt<1>>::spec_split_at(t),
        <(A, B, C, D, E, F, G) as TupleSplitIntoRight<(B, C, D, E, F, G)>>::spec_split_into_right(t)
            == <(A, B, C, D, E, F, G) as TupleSplitAt<1>>::spec_split_at(t),
        <(A, B, C, D, E, F, G) as TupleSplitIntoLeft<(A, B)>>::spec_split_into_left(t)
            == <(A, B, C, D, E, F, G) as TupleSplitAt<2>>::spec_split_at(t),
        <(A, B, C, D, E, F, G) as TupleSplitIntoRight<(C, D, E, F, G)>>::spec_split_into_right(t)
            == <(A, B, C, D, E, F, G) as TupleSplitAt<2>>::spec_split_at(t),
        <(A, B, C, D, E, F, G) as TupleSplitIntoLeft<(A, B, C)>>::spec_split_into_left(t)
            == <(A, B, C, D, E, F, G) as TupleSplitAt<3>>::spec_split_at(t),
        <(A, B, C, D, E, F, G) as TupleSplitIntoRight<(D, E, F, G)>>::spec_split_into_right(t)
            == <(A, B, C, D, E, F, G) as TupleSplitAt<3>>::spec_split_at(t),
        <(A, B, C, D, E, F, G) as TupleSplitIntoLeft<(A, B, C, D)>>::spec_split_into_left(t)
            == <(A, B, C, D, E, F, G) as TupleSplitAt<4>>::spec_split_at(t),
        <(A, B, C, D, E, F, G) as TupleSplitIntoRight<(E, F, G)>>::spec_split_into_right(t)
            == <(A, B, C, D, E, F, G) as TupleSplitAt<4>>::spec_split_at(t),
        <(A, B, C, D, E, F, G) as TupleSplitIntoLeft<(A, B, C, D, E)>>::spec_split_into_left(t)
            == <(A, B, C, D, E, F, G) as TupleSplitAt<5>>::spec_split_at(t),
        <(A, B, C, D, E, F, G) as TupleSplitIntoRight<(F, G)>>::spec_split_into_right(t)
            == <(A, B, C, D, E, F, G) as TupleSplitAt<5>>::spec_split_at(t),
        <(A, B, C, D, E, F, G) as TupleSplitIntoLeft<(A, B, C, D, E, F)>>::spec_split_into_left(t)
            == <(A, B, C, D, E, F, G) as TupleSplitAt<6>>::spec_split_at(t),
        <(A, B, C, D, E, F, G) as TupleSplitIntoRight<(G,)>>::spec_split_into_right(t)
            == <(A, B, C, D, E, F, G) as TupleSplitAt<6>>::spec_split_at(t),
        <(A, B, C, D, E, F, G) as TupleSplitIntoLeft<(A, B, C, D, E, F, G)>>::spec_split_into_left(t)
            == <(A, B, C, D, E, F, G) as TupleSplitAt<7>>::spec_split_at(t),
        <(A, B, C, D, E, F, G) as TupleSplitIntoRight<()>>::spec_split_into_right(t)
            == <(A, B, C, D, E, F, G) as TupleSplitAt<7>>::spec_split_at(t),
{
}

/// Splitting by a prefix shape and splitting by the complementary suffix
/// shape produce identical left and right parts, for every split point of
/// the arity.
pub proof fn lemma_cross_consistency<A, B, C, D, E, F, G>(t: (A, B, C, D, E, F, G))
    ensures
        <(A, B, C, D, E, F, G) as TupleSplitIntoLeft<()>>::spec_split_into_left(t)
            == <(A, B, C, D, E, F, G) as TupleSplitIntoRight<(A, B, C, D, E, F, G)>>::spec_split_into_right(t),
        <(A, B, C, D, E, F, G) as TupleSplitIntoLeft<(A,)>>::spec_split_into_left(t)
            == <(A, B, C, D, E, F, G) as TupleSplitIntoRight<(B, C, D, E, F, G)>>::spec_split_into_right(t),
        <(A, B, C, D, E, F, G) as TupleSplitIntoLeft<(A, B)>>::spec_split_into_left(t)
            == <(A, B, C, D, E, F, G) as TupleSplitIntoRight<(C, D, E, F, G)>>::spec_split_into_right(t),
        <(A, B, C, D, E, F, G) as TupleSplitIntoLeft<(A, B, C)>>::spec_split_into_left(t)
            == <(A, B, C, D, E, F, G) as TupleSplitIntoRight<(D, E, F, G)>>::spec_split_into_right(t),
        <(A, B, C, D, E, F, G) as TupleSplitIntoLeft<(A, B, C, D)>>::spec_split_into_left(t)
            == <(A, B, C, D, E, F, G) as TupleSplitIntoRight<(E, F, G)>>::spec_split_into_right(t),
        <(A, B, C, D, E, F, G) as TupleSplitIntoLeft<(A, B, C, D, E)>>::spec_split_into_left(t)
            == <(A, B, C, D, E, F, G) as TupleSplitIntoRight<(F, G)>>::spec_split_into_right(t),
        <(A, B, C, D, E, F, G) as TupleSplitIntoLeft<(A, B, C, D, E, F)>>::spec_split_into_left(t)
            == <(A, B, C, D, E, F, G) as TupleSplitIntoRight<(G,)>>::spec_split_into_right(t),
        <(A, B, C, D, E, F, G) as TupleSplitIntoLeft<(A, B, C, D, E, F, G)>>::spec_split_into_left(t)
            == <(A, B, C, D, E, F, G) as TupleSplitIntoRight<()>>::spec_split_into_right(t),
{
}

} // verus!
