//! Split specializations for a tuple of eight elements.

use vstd::prelude::*;

use crate::TupleSplitAt;
use crate::TupleSplitIntoLeft;
use crate::TupleSplitIntoRight;

verus! {

impl<A, B, C, D, E, F, G, H> TupleSplitAt<0> for (A, B, C, D, E, F, G, H) {
    type Left = ();
    type Right = (A, B, C, D, E, F, G, H);

    open spec fn spec_split_at(self) -> ((), (A, B, C, D, E, F, G, H)) {
        ((), (self.0, self.1, self.2, self.3, self.4, self.5, self.6, self.7))
    }

    open spec fn spec_concat(left: (), right: (A, B, C, D, E, F, G, H)) -> (A, B, C, D, E, F, G, H) {
        (right.0, right.1, right.2, right.3, right.4, right.5, right.6, right.7)
    }

    proof fn lemma_split_concat(self) {
    }

    proof fn lemma_concat_split(left: (), right: (A, B, C, D, E, F, G, H)) {
    }

    fn split_tuple_at(self) -> (r: ((), (A, B, C, D, E, F, G, H))) {
        let (a, b, c, d, e, f, g, h) = self;
        ((), (a, b, c, d, e, f, g, h))
    }
}

impl<A, B, C, D, E, F, G, H> TupleSplitIntoLeft<()> for (A, B, C, D, E, F, G, H) {
    type Right = (A, B, C, D, E, F, G, H);

    open spec fn spec_split_into_left(self) -> ((), (A, B, C, D, E, F, G, H)) {
        ((), (self.0, self.1, self.2, self.3, self.4, self.5, self.6, self.7))
    }

    fn split_tuple_into_left(self) -> (r: ((), (A, B, C, D, E, F, G, H))) {
        let (a, b, c, d, e, f, g, h) = self;
        ((), (a, b, c, d, e, f, g, h))
    }
}

impl<A, B, C, D, E, F, G, H> TupleSplitIntoRight<(A, B, C, D, E, F, G, H)> for (A, B, C, D, E, F, G, H) {
    type Left = ();

    open spec fn spec_split_into_right(self) -> ((), (A, B, C, D, E, F, G, H)) {
        ((), (self.0, self.1, self.2, self.3, self.4, self.5, self.6, self.7))
    }

    fn split_tuple_into_right(self) -> (r: ((), (A, B, C, D, E, F, G, H))) {
        let (a, b, c, d, e, f, g, h) = self;
        ((), (a, b, c, d, e, f, g, h))
    }
}

impl<A, B, C, D, E, F, G, H> TupleSplitAt<1> for (A, B, C, D, E, F, G, H) {
    type Left = (A,);
    type Right = (B, C, D, E, F, G, H);

    open spec fn spec_split_at(self) -> ((A,), (B, C, D, E, F, G, H)) {
        ((self.0,), (self.1, self.2, self.3, self.4, self.5, self.6, self.7))
    }

    open spec fn spec_concat(left: (A,), right: (B, C, D, E, F, G, H)) -> (A, B, C, D, E, F, G, H) {
        (left.0, right.0, right.1, right.2, right.3, right.4, right.5, right.6)
    }

    proof fn lemma_split_concat(self) {
    }

    proof fn lemma_concat_split(left: (A,), right: (B, C, D, E, F, G, H)) {
    }

    fn split_tuple_at(self) -> (r: ((A,), (B, C, D, E, F, G, H))) {
        let (a, b, c, d, e, f, g, h) = self;
        ((a,), (b, c, d, e, f, g, h))
    }
}

impl<A, B, C, D, E, F, G, H> TupleSplitIntoLeft<(A,)> for (A, B, C, D, E, F, G, H) {
    type Right = (B, C, D, E, F, G, H);

    open spec fn spec_split_into_left(self) -> ((A,), (B, C, D, E, F, G, H)) {
        ((self.0,), (self.1, self.2, self.3, self.4, self.5, self.6, self.7))
    }

    fn split_tuple_into_left(self) -> (r: ((A,), (B, C, D, E, F, G, H))) {
        let (a, b, c, d, e, f, g, h) = self;
        ((a,), (b, c, d, e, f, g, h))
    }
}

impl<A, B, C, D, E, F, G, H> TupleSplitIntoRight<(B, C, D, E, F, G, H)> for (A, B, C, D, E, F, G, H) {
    type Left = (A,);

    open spec fn spec_split_into_right(self) -> ((A,), (B, C, D, E, F, G, H)) {
        ((self.0,), (self.1, self.2, self.3, self.4, self.5, self.6, self.7))
    }

    fn split_tuple_into_right(self) -> (r: ((A,), (B, C, D, E, F, G, H))) {
        let (a, b, c, d, e, f, g, h) = self;
        ((a,), (b, c, d, e, f, g, h))
    }
}

impl<A, B, C, D, E, F, G, H> TupleSplitAt<2> for (A, B, C, D, E, F, G, H) {
    type Left = (A, B);
    type Right = (C, D, E, F, G, H);

    open spec fn spec_split_at(self) -> ((A, B), (C, D, E, F, G, H)) {
        ((self.0, self.1), (self.2, self.3, self.4, self.5, self.6, self.7))
    }

    open spec fn spec_concat(left: (A, B), right: (C, D, E, F, G, H)) -> (A, B, C, D, E, F, G, H) {
        (left.0, left.1, right.0, right.1, right.2, right.3, right.4, right.5)
    }

    proof fn lemma_split_concat(self) {
    }

    proof fn lemma_concat_split(left: (A, B), right: (C, D, E, F, G, H)) {
    }

    fn split_tuple_at(self) -> (r: ((A, B), (C, D, E, F, G, H))) {
        let (a, b, c, d, e, f, g, h) = self;
        ((a, b), (c, d, e, f, g, h))
    }
}

impl<A, B, C, D, E, F, G, H> TupleSplitIntoLeft<(A, B)> for (A, B, C, D, E, F, G, H) {
    type Right = (C, D, E, F, G, H);

    open spec fn spec_split_into_left(self) -> ((A, B), (C, D, E, F, G, H)) {
        ((self.0, self.1), (self.2, self.3, self.4, self.5, self.6, self.7))
    }

    fn split_tuple_into_left(self) -> (r: ((A, B), (C, D, E, F, G, H))) {
        let (a, b, c, d, e, f, g, h) = self;
        ((a, b), (c, d, e, f, g, h))
    }
}

impl<A, B, C, D, E, F, G, H> TupleSplitIntoRight<(C, D, E, F, G, H)> for (A, B, C, D, E, F, G, H) {
    type Left = (A, B);

    open spec fn spec_split_into_right(self) -> ((A, B), (C, D, E, F, G, H)) {
        ((self.0, self.1), (self.2, self.3, self.4, self.5, self.6, self.7))
    }

    fn split_tuple_into_right(self) -> (r: ((A, B), (C, D, E, F, G, H))) {
        let (a, b, c, d, e, f, g, h) = self;
        ((a, b), (c, d, e, f, g, h))
    }
}

impl<A, B, C, D, E, F, G, H> TupleSplitAt<3> for (A, B, C, D, E, F, G, H) {
    type Left = (A, B, C);
    type Right = (D, E, F, G, H);

    open spec fn spec_split_at(self) -> ((A, B, C), (D, E, F, G, H)) {
        ((self.0, self.1, self.2), (self.3, self.4, self.5, self.6, self.7))
    }

    open spec fn spec_concat(left: (A, B, C), right: (D, E, F, G, H)) -> (A, B, C, D, E, F, G, H) {
        (left.0, left.1, left.2, right.0, right.1, right.2, right.3, right.4)
    }

    proof fn lemma_split_concat(self) {
    }

    proof fn lemma_concat_split(left: (A, B, C), right: (D, E, F, G, H)) {
    }

    fn split_tuple_at(self) -> (r: ((A, B, C), (D, E, F, G, H))) {
        let (a, b, c, d, e, f, g, h) = self;
        ((a, b, c), (d, e, f, g, h))
    }
}

impl<A, B, C, D, E, F, G, H> TupleSplitIntoLeft<(A, B, C)> for (A, B, C, D, E, F, G, H) {
    type Right = (D, E, F, G, H);

    open spec fn spec_split_into_left(self) -> ((A, B, C), (D, E, F, G, H)) {
        ((self.0, self.1, self.2), (self.3, self.4, self.5, self.6, self.7))
    }

    fn split_tuple_into_left(self) -> (r: ((A, B, C), (D, E, F, G, H))) {
        let (a, b, c, d, e, f, g, h) = self;
        ((a, b, c), (d, e, f, g, h))
    }
}

impl<A, B, C, D, E, F, G, H> TupleSplitIntoRight<(D, E, F, G, H)> for (A, B, C, D, E, F, G, H) {
    type Left = (A, B, C);

    open spec fn spec_split_into_right(self) -> ((A, B, C), (D, E, F, G, H)) {
        ((self.0, self.1, self.2), (self.3, self.4, self.5, self.6, self.7))
    }

    fn split_tuple_into_right(self) -> (r: ((A, B, C), (D, E, F, G, H))) {
        let (a, b, c, d, e, f, g, h) = self;
        ((a, b, c), (d, e, f, g, h))
    }
}

impl<A, B, C, D, E, F, G, H> TupleSplitAt<4> for (A, B, C, D, E, F, G, H) {
    type Left = (A, B, C, D);
    type Right = (E, F, G, H);

    open spec fn spec_split_at(self) -> ((A, B, C, D), (E, F, G, H)) {
        ((self.0, self.1, self.2, self.3), (self.4, self.5, self.6, self.7))
    }

    open spec fn spec_concat(left: (A, B, C, D), right: (E, F, G, H)) -> (A, B, C, D, E, F, G, H) {
        (left.0, left.1, left.2, left.3, right.0, right.1, right.2, right.3)
    }

    proof fn lemma_split_concat(self) {
    }

    proof fn lemma_concat_split(left: (A, B, C, D), right: (E, F, G, H)) {
    }

    fn split_tuple_at(self) -> (r: ((A, B, C, D), (E, F, G, H))) {
        let (a, b, c, d, e, f, g, h) = self;
        ((a, b, c, d), (e, f, g, h))
    }
}

impl<A, B, C, D, E, F, G, H> TupleSplitIntoLeft<(A, B, C, D)> for (A, B, C, D, E, F, G, H) {
    type Right = (E, F, G, H);

    open spec fn spec_split_into_left(self) -> ((A, B, C, D), (E, F, G, H)) {
        ((self.0, self.1, self.2, self.3), (self.4, self.5, self.6, self.7))
    }

    fn split_tuple_into_left(self) -> (r: ((A, B, C, D), (E, F, G, H))) {
        let (a, b, c, d, e, f, g, h) = self;
        ((a, b, c, d), (e, f, g, h))
    }
}

impl<A, B, C, D, E, F, G, H> TupleSplitIntoRight<(E, F, G, H)> for (A, B, C, D, E, F, G, H) {
    type Left = (A, B, C, D);

    open spec fn spec_split_into_right(self) -> ((A, B, C, D), (E, F, G, H)) {
        ((self.0, self.1, self.2, self.3), (self.4, self.5, self.6, self.7))
    }

    fn split_tuple_into_right(self) -> (r: ((A, B, C, D), (E, F, G, H))) {
        let (a, b, c, d, e, f, g, h) = self;
        ((a, b, c, d), (e, f, g, h))
    }
}

impl<A, B, C, D, E, F, G, H> TupleSplitAt<5> for (A, B, C, D, E, F, G, H) {
    type Left = (A, B, C, D, E);
    type Right = (F, G, H);

    open spec fn spec_split_at(self) -> ((A, B, C, D, E), (F, G, H)) {
        ((self.0, self.1, self.2, self.3, self.4), (self.5, self.6, self.7))
    }

    open spec fn spec_concat(left: (A, B, C, D, E), right: (F, G, H)) -> (A, B, C, D, E, F, G, H) {
        (left.0, left.1, left.2, left.3, left.4, right.0, right.1, right.2)
    }

    proof fn lemma_split_concat(self) {
    }

    proof fn lemma_concat_split(left: (A, B, C, D, E), right: (F, G, H)) {
    }

    fn split_tuple_at(self) -> (r: ((A, B, C, D, E), (F, G, H))) {
        let (a, b, c, d, e, f, g, h) = self;
        ((a, b, c, d, e), (f, g, h))
    }
}

impl<A, B, C, D, E, F, G, H> TupleSplitIntoLeft<(A, B, C, D, E)> for (A, B, C, D, E, F, G, H) {
    type Right = (F, G, H);

    open spec fn spec_split_into_left(self) -> ((A, B, C, D, E), (F, G, H)) {
        ((self.0, self.1, self.2, self.3, self.4), (self.5, self.6, self.7))
    }

    fn split_tuple_into_left(self) -> (r: ((A, B, C, D, E), (F, G, H))) {
        let (a, b, c, d, e, f, g, h) = self;
        ((a, b, c, d, e), (f, g, h))
    }
}

impl<A, B, C, D, E, F, G, H> TupleSplitIntoRight<(F, G, H)> for (A, B, C, D, E, F, G, H) {
    type Left = (A, B, C, D, E);

    open spec fn spec_split_into_right(self) -> ((A, B, C, D, E), (F, G, H)) {
        ((self.0, self.1, self.2, self.3, self.4), (self.5, self.6, self.7))
    }

    fn split_tuple_into_right(self) -> (r: ((A, B, C, D, E), (F, G, H))) {
        let (a, b, c, d, e, f, g, h) = self;
        ((a, b, c, d, e), (f, g, h))
    }
}

impl<A, B, C, D, E, F, G, H> TupleSplitAt<6> for (A, B, C, D, E, F, G, H) {
    type Left = (A, B, C, D, E, F);
    type Right = (G, H);

    open spec fn spec_split_at(self) -> ((A, B, C, D, E, F), (G, H)) {
        ((self.0, self.1, self.2, self.3, self.4, self.5), (self.6, self.7))
    }

    open spec fn spec_concat(left: (A, B, C, D, E, F), right: (G, H)) -> (A, B, C, D, E, F, G, H) {
        (left.0, left.1, left.2, left.3, left.4, left.5, right.0, right.1)
    }

    proof fn lemma_split_concat(self) {
    }

    proof fn lemma_concat_split(left: (A, B, C, D, E, F), right: (G, H)) {
    }

    fn split_tuple_at(self) -> (r: ((A, B, C, D, E, F), (G, H))) {
        let (a, b, c, d, e, f, g, h) = self;
        ((a, b, c, d, e, f), (g, h))
    }
}

impl<A, B, C, D, E, F, G, H> TupleSplitIntoLeft<(A, B, C, D, E, F)> for (A, B, C, D, E, F, G, H) {
    type Right = (G, H);

    open spec fn spec_split_into_left(self) -> ((A, B, C, D, E, F), (G, H)) {
        ((self.0, self.1, self.2, self.3, self.4, self.5), (self.6, self.7))
    }

    fn split_tuple_into_left(self) -> (r: ((A, B, C, D, E, F), (G, H))) {
        let (a, b, c, d, e, f, g, h) = self;
        ((a, b, c, d, e, f), (g, h))
    }
}

impl<A, B, C, D, E, F, G, H> TupleSplitIntoRight<(G, H)> for (A, B, C, D, E, F, G, H) {
    type Left = (A, B, C, D, E, F);

    open spec fn spec_split_into_right(self) -> ((A, B, C, D, E, F), (G, H)) {
        ((self.0, self.1, self.2, self.3, self.4, self.5), (self.6, self.7))
    }

    fn split_tuple_into_right(self) -> (r: ((A, B, C, D, E, F), (G, H))) {
        let (a, b, c, d, e, f, g, h) = self;
        ((a, b, c, d, e, f), (g, h))
    }
}

impl<A, B, C, D, E, F, G, H> TupleSplitAt<7> for (A, B, C, D, E, F, G, H) {
    type Left = (A, B, C, D, E, F, G);
    type Right = (H,);

    open spec fn spec_split_at(self) -> ((A, B, C, D, E, F, G), (H,)) {
        ((self.0, self.1, self.2, self.3, self.4, self.5, self.6), (self.7,))
    }

    open spec fn spec_concat(left: (A, B, C, D, E, F, G), right: (H,)) -> (A, B, C, D, E, F, G, H) {
        (left.0, left.1, left.2, left.3, left.4, left.5, left.6, right.0)
    }

    proof fn lemma_split_concat(self) {
    }

    proof fn lemma_concat_split(left: (A, B, C, D, E, F, G), right: (H,)) {
    }

    fn split_tuple_at(self) -> (r: ((A, B, C, D, E, F, G), (H,))) {
        let (a, b, c, d, e, f, g, h) = self;
        ((a, b, c, d, e, f, g), (h,))
    }
}

impl<A, B, C, D, E, F, G, H> TupleSplitIntoLeft<(A, B, C, D, E, F, G)> for (A, B, C, D, E, F, G, H) {
    type Right = (H,);

    open spec fn spec_split_into_left(self) -> ((A, B, C, D, E, F, G), (H,)) {
        ((self.0, self.1, self.2, self.3, self.4, self.5, self.6), (self.7,))
    }

    fn split_tuple_into_left(self) -> (r: ((A, B, C, D, E, F, G), (H,))) {
        let (a, b, c, d, e, f, g, h) = self;
        ((a, b, c, d, e, f, g), (h,))
    }
}

impl<A, B, C, D, E, F, G, H> TupleSplitIntoRight<(H,)> for (A, B, C, D, E, F, G, H) {
    type Left = (A, B, C, D, E, F, G);

    open spec fn spec_split_into_right(self) -> ((A, B, C, D, E, F, G), (H,)) {
        ((self.0, self.1, self.2, self.3, self.4, self.5, self.6), (self.7,))
    }

    fn split_tuple_into_right(self) -> (r: ((A, B, C, D, E, F, G), (H,))) {
        let (a, b, c, d, e, f, g, h) = self;
        ((a, b, c, d, e, f, g), (h,))
    }
}

impl<A, B, C, D, E, F, G, H> TupleSplitAt<8> for (A, B, C, D, E, F, G, H) {
    type Left = (A, B, C, D, E, F, G, H);
    type Right = ();

    open spec fn spec_split_at(self) -> ((A, B, C, D, E, F, G, H), ()) {
        ((self.0, self.1, self.2, self.3, self.4, self.5, self.6, self.7), ())
    }

    open spec fn spec_concat(left: (A, B, C, D, E, F, G, H), right: ()) -> (A, B, C, D, E, F, G, H) {
        (left.0, left.1, left.2, left.3, left.4, left.5, left.6, left.7)
    }

    proof fn lemma_split_concat(self) {
    }

    proof fn lemma_concat_split(left: (A, B, C, D, E, F, G, H), right: ()) {
    }

    fn split_tuple_at(self) -> (r: ((A, B, C, D, E, F, G, H), ())) {
        let (a, b, c, d, e, f, g, h) = self;
        ((a, b, c, d, e, f, g, h), ())
    }
}

impl<A, B, C, D, E, F, G, H> TupleSplitIntoLeft<(A, B, C, D, E, F, G, H)> for (A, B, C, D, E, F, G, H) {
    type Right = ();

    open spec fn spec_split_into_left(self) -> ((A, B, C, D, E, F, G, H), ()) {
        ((self.0, self.1, self.2, self.3, self.4, self.5, self.6, self.7), ())
    }

    fn split_tuple_into_left(self) -> (r: ((A, B, C, D, E, F, G, H), ())) {
        let (a, b, c, d, e, f, g, h) = self;
        ((a, b, c, d, e, f, g, h), ())
    }
}

impl<A, B, C, D, E, F, G, H> TupleSplitIntoRight<()> for (A, B, C, D, E, F, G, H) {
    type Left = (A, B, C, D, E, F, G, H);

    open spec fn spec_split_into_right(self) -> ((A, B, C, D, E, F, G, H), ()) {
        ((self.0, self.1, self.2, self.3, self.4, self.5, self.6, self.7), ())
    }

    fn split_tuple_into_right(self) -> (r: ((A, B, C, D, E, F, G, H), ())) {
        let (a, b, c, d, e, f, g, h) = self;
        ((a, b, c, d, e, f, g, h), ())
    }
}

/// Splitting at index zero leaves the left part empty and the right part
/// equal to the whole source; splitting at the arity leaves the left part
/// equal to the whole source and the right part empty.
pub proof fn lemma_boundary<A, B, C, D, E, F, G, H>(t: (A, B, C, D, E, F, G, H))
    ensures
        <(A, B, C, D, E, F, G, H) as TupleSplitAt<0>>::spec_split_at(t) == (((), t)),
        <(A, B, C, D, E, F, G, H) as TupleSplitAt<8>>::spec_split_at(t) == ((t, ())),
{
}

/// Splitting by the prefix shape of the first `k` element types, or by the
/// suffix shape of the remaining element types, agrees with splitting at
/// index `k`, for every split point `k` of the arity.
pub proof fn lemma_shape_index_equivalence<A, B, C, D, E, F, G, H>(t: (A, B, C, D, E, F, G, H))
    ensures
        <(A, B, C, D, E, F, G, H) as TupleSplitIntoLeft<()>>::spec_split_into_left(t)
            == <(A, B, C, D, E, F, G, H) as TupleSplitAt<0>>::spec_split_at(t),
        <(A, B, C, D, E, F, G, H) as TupleSplitIntoRight<(A, B, C, D, E, F, G, H)>>::spec_split_into_right(t)
            == <(A, B, C, D, E, F, G, H) as TupleSplitAt<0>>::spec_split_at(t),
        <(A, B, C, D, E, F, G, H) as TupleSplitIntoLeft<(A,)>>::spec_split_into_left(t)
            == <(A, B, C, D, E, F, G, H) as TupleSplitAt<1>>::spec_split_at(t),
        <(A, B, C, D, E, F, G, H) as TupleSplitIntoRight<(B, C, D, E, F, G, H)>>::spec_split_into_right(t)
            == <(A, B, C, D, E, F, G, H) as TupleSplitAt<1>>::spec_split_at(t),
        <(A, B, C, D, E, F, G, H) as TupleSplitIntoLeft<(A, B)>>::spec_split_into_left(t)
            == <(A, B, C, D, E, F, G, H) as TupleSplitAt<2>>::spec_split_at(t),
        <(A, B, C, D, E, F, G, H) as TupleSplitIntoRight<(C, D, E, F, G, H)>>::spec_split_into_right(t)
            == <(A, B, C, D, E, F, G, H) as TupleSplitAt<2>>::spec_split_at(t),
        <(A, B, C, D, E, F, G, H) as TupleSplitIntoLeft<(A, B, C)>>::spec_split_into_left(t)
            == <(A, B, C, D, E, F, G, H) as TupleSplitAt<3>>::spec_split_at(t),
        <(A, B, C, D, E, F, G, H) as TupleSplitIntoRight<(D, E, F, G, H)>>::spec_split_into_right(t)
            == <(A, B, C, D, E, F, G, H) as TupleSplitAt<3>>::spec_split_at(t),
        <(A, B, C, D, E, F, G, H) as TupleSplitIntoLeft<(A, B, C, D)>>::spec_split_into_left(t)
            == <(A, B, C, D, E, F, G, H) as TupleSplitAt<4>>::spec_split_at(t),
        <(A, B, C, D, E, F, G, H) as TupleSplitIntoRight<(E, F, G, H)>>::spec_split_into_right(t)
            == <(A, B, C, D, E, F, G, H) as TupleSplitAt<4>>::spec_split_at(t),
        <(A, B, C, D, E, F, G, H) as TupleSplitIntoLeft<(A, B, C, D, E)>>::spec_split_into_left(t)
            == <(A, B, C, D, E, F, G, H) as TupleSplitAt<5>>::spec_split_at(t),
        <(A, B, C, D, E, F, G, H) as TupleSplitIntoRight<(F, G, H)>>::spec_split_into_right(t)
            == <(A, B, C, D, E, F, G, H) as TupleSplitAt<5>>::spec_split_at(t),
        <(A, B, C, D, E, F, G, H) as TupleSplitIntoLeft<(A, B, C, D, E, F)>>::spec_split_into_left(t)
            == <(A, B, C, D, E, F, G, H) as TupleSplitAt<6>>::spec_split_at(t),
        <(A, B, C, D, E, F, G, H) as TupleSplitIntoRight<(G, H)>>::spec_split_into_right(t)
            == <(A, B, C, D, E, F, G, H) as TupleSplitAt<6>>::spec_split_at(t),
        <(A, B, C, D, E, F, G, H) as TupleSplitIntoLeft<(A, B, C, D, E, F, G)>>::spec_split_into_left(t)
            == <(A, B, C, D, E, F, G, H) as TupleSplitAt<7>>::spec_split_at(t),
        <(A, B, C, D, E, F, G, H) as TupleSplitIntoRight<(H,)>>::spec_split_into_right(t)
            == <(A, B, C, D, E, F, G, H) as TupleSplitAt<7>>::spec_split_at(t),
        <(A, B, C, D, E, F, G, H) as TupleSplitIntoLeft<(A, B, C, D, E, F, G, H)>>::spec_split_into_left(t)
            == <(A, B, C, D, E, F, G, H) as TupleSplitAt<8>>::spec_split_at(t),
        <(A, B, C, D, E, F, G, H) as TupleSplitIntoRight<()>>::spec_split_into_right(t)
            == <(A, B, C, D, E, F, G, H) as TupleSplitAt<8>>::spec_split_at(t),
{
}

/// Splitting by a prefix shape and splitting by the complementary suffix
/// shape produce identical left and right parts, for every split point of
/// the arity.
pub proof fn lemma_cross_consistency<A, B, C, D, E, F, G, H>(t: (A, B, C, D, E, F, G, H))
    ensures
        <(A, B, C, D, E, F, G, H) as TupleSplitIntoLeft<()>>::spec_split_into_left(t)
            == <(A, B, C, D, E, F, G, H) as TupleSplitIntoRight<(A, B, C, D, E, F, G, H)>>::spec_split_into_right(t),
        <(A, B, C, D, E, F, G, H) as TupleSplitIntoLeft<(A,)>>::spec_split_into_left(t)
            == <(A, B, C, D, E, F, G, H) as TupleSplitIntoRight<(B, C, D, E, F, G, H)>>::spec_split_into_right(t),
        <(A, B, C, D, E, F, G, H) as TupleSplitIntoLeft<(A, B)>>::spec_split_into_left(t)
            == <(A, B, C, D, E, F, G, H) as TupleSplitIntoRight<(C, D, E, F, G, H)>>::spec_split_into_right(t),
        <(A, B, C, D, E, F, G, H) as TupleSplitIntoLeft<(A, B, C)>>::spec_split_into_left(t)
            == <(A, B, C, D, E, F, G, H) as TupleSplitIntoRight<(D, E, F, G, H)>>::spec_split_into_right(t),
        <(A, B, C, D, E, F, G, H) as TupleSplitIntoLeft<(A, B, C, D)>>::spec_split_into_left(t)
            == <(A, B, C, D, E, F, G, H) as TupleSplitIntoRight<(E, F, G, H)>>::spec_split_into_right(t),
        <(A, B, C, D, E, F, G, H) as TupleSplitIntoLeft<(A, B, C, D, E)>>::spec_split_into_left(t)
            == <(A, B, C, D, E, F, G, H) as TupleSplitIntoRight<(F, G, H)>>::spec_split_into_right(t),
        <(A, B, C, D, E, F, G, H) as TupleSplitIntoLeft<(A, B, C, D, E, F)>>::spec_split_into_left(t)
            == <(A, B, C, D, E, F, G, H) as TupleSplitIntoRight<(G, H)>>::spec_split_into_right(t),
        <(A, B, C, D, E, F, G, H) as TupleSplitIntoLeft<(A, B, C, D, E, F, G)>>::spec_split_into_left(t)
            == <(A, B, C, D, E, F, G, H) as TupleSplitIntoRight<(H,)>>::spec_split_into_right(t),
        <(A, B, C, D, E, F, G, H) as TupleSplitIntoLeft<(A, B, C, D, E, F, G, H)>>::spec_split_into_left(t)
            == <(A, B, C, D, E, F, G, H) as TupleSplitIntoRight<()>>::spec_split_into_right(t),
{
}

} // verus!
