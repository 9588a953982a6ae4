//! Splitting of fixed-arity, heterogeneously typed tuples into a left prefix
//! and a right suffix, with the split point known at build time.
//!
//! A tuple can be split in four ways: at a numeric index
//! ([`split_tuple_at`]), by giving the desired left shape
//! ([`split_tuple_into_left`]), by giving the desired right shape
//! ([`split_tuple_into_right`]), or by giving both shapes
//! ([`split_tuple_into`]). Resolution to a concrete specialization happens
//! entirely at build time: one implementation exists for every pair of a
//! supported arity and a split point, so an index outside the arity, or a
//! shape that is not an exact positional prefix or suffix of the source,
//! fails to build. At run time a split is a pure regrouping of the source
//! tuple's elements into two new tuples.
//!
//! Every implementation carries a proved round-trip law: concatenating the
//! two parts restores the source tuple, and splitting a concatenation gives
//! the parts back. The per-arity modules also prove that shape-directed and
//! index-directed splitting agree at every split point.
//!
//! Tuples of up to eight elements are supported. The set of specializations
//! grows quadratically with the maximum supported arity, so the ceiling is a
//! build-cost trade-off, not a semantic limit.

use vstd::prelude::*;

pub mod arity0;
pub mod arity1;
pub mod arity2;
pub mod arity3;
pub mod arity4;
pub mod arity5;
pub mod arity6;
pub mod arity7;
pub mod arity8;

verus! {

/// The left part that splitting a tuple `T` at `MIDDLE` yields.
pub type Left<T, const MIDDLE: usize> = <T as TupleSplitAt<MIDDLE>>::Left;

/// The right part that splitting a tuple `T` at `MIDDLE` yields.
pub type Right<T, const MIDDLE: usize> = <T as TupleSplitAt<MIDDLE>>::Right;

/// A tuple type that can be split at position `MIDDLE`, counted from zero:
/// the first `MIDDLE` elements form `Left`, the remaining elements form
/// `Right`.
pub trait TupleSplitAt<const MIDDLE: usize>: Sized {
    type Left;
    type Right;

    /// The pair of tuples that splitting yields: a pure regrouping of the
    /// elements, the first `MIDDLE` on the left and the rest on the right.
    spec fn spec_split_at(self) -> (Self::Left, Self::Right);

    /// The companion concatenation, modelled at the specification level:
    /// joining a left part and a right part back into one tuple.
    spec fn spec_concat(left: Self::Left, right: Self::Right) -> Self;

    /// Splitting and then concatenating the parts restores the source tuple.
    proof fn lemma_split_concat(self)
        ensures
            Self::spec_concat(self.spec_split_at().0, self.spec_split_at().1) == self,
    ;

    /// Concatenating two parts and splitting the result gives the parts back.
    proof fn lemma_concat_split(left: Self::Left, right: Self::Right)
        ensures
            Self::spec_concat(left, right).spec_split_at() == ((left, right)),
    ;

    fn split_tuple_at(self) -> (r: (Self::Left, Self::Right))
        ensures
            r == self.spec_split_at(),
    ;
}

/// A tuple type whose first elements form exactly the tuple type `L`; the
/// remaining elements form `Right`.
pub trait TupleSplitIntoLeft<L>: Sized {
    type Right;

    /// The pair that splitting off the prefix `L` yields.
    spec fn spec_split_into_left(self) -> (L, Self::Right);

    fn split_tuple_into_left(self) -> (r: (L, Self::Right))
        ensures
            r == self.spec_split_into_left(),
    ;
}

/// A tuple type whose last elements form exactly the tuple type `R`; the
/// leading elements form `Left`.
pub trait TupleSplitIntoRight<R>: Sized {
    type Left;

    /// The pair that splitting off the suffix `R` yields.
    spec fn spec_split_into_right(self) -> (Self::Left, R);

    fn split_tuple_into_right(self) -> (r: (Self::Left, R))
        ensures
            r == self.spec_split_into_right(),
    ;
}

/// A tuple type that splits into the prefix `L` and the suffix `R` at once;
/// the two declared shapes must be mutually consistent with the source, in
/// that `L` is its exact prefix and `R` the complementary exact suffix.
pub trait TupleSplitInto<L, R>: TupleSplitIntoLeft<L, Right = R> + TupleSplitIntoRight<R, Left = L> {
    fn split_tuple_into(self) -> (r: (L, R))
        ensures
            r == self.spec_split_into_left(),
    ;
}

impl<T, L, R> TupleSplitInto<L, R> for T
    where
        T: TupleSplitIntoLeft<L, Right = R> + TupleSplitIntoRight<R, Left = L>,
{
    fn split_tuple_into(self) -> (r: (L, R)) {
        self.split_tuple_into_left()
    }
}

/// Splits a tuple at index `MIDDLE`, counted from zero: the first `MIDDLE`
/// elements form the left result, the remaining elements the right result.
pub fn split_tuple_at<const MIDDLE: usize, T>(tuple: T) -> (r: (T::Left, T::Right))
    where
        T: TupleSplitAt<MIDDLE>,
    ensures
        r == tuple.spec_split_at(),
{
    tuple.split_tuple_at()
}

/// Splits a tuple into a given prefix shape `L`; the suffix shape is deduced.
pub fn split_tuple_into_left<L, T>(tuple: T) -> (r: (L, T::Right))
    where
        T: TupleSplitIntoLeft<L>,
    ensures
        r == tuple.spec_split_into_left(),
{
    tuple.split_tuple_into_left()
}

/// Splits a tuple into a given suffix shape `R`; the prefix shape is deduced.
pub fn split_tuple_into_right<R, T>(tuple: T) -> (r: (T::Left, R))
    where
        T: TupleSplitIntoRight<R>,
    ensures
        r == tuple.spec_split_into_right(),
{
    tuple.split_tuple_into_right()
}

/// Splits a tuple into a given prefix shape `L` and suffix shape `R`; the
/// two declared shapes must jointly cover the source tuple exactly.
pub fn split_tuple_into<L, R, T>(tuple: T) -> (r: (L, R))
    where
        T: TupleSplitInto<L, R>,
    ensures
        r == tuple.spec_split_into_left(),
{
    tuple.split_tuple_into()
}

} // verus!
