//! One element type for futures of many types.

use crate::internal::{left, left_homogenous, right};
use futures::future::Either;
use std::future::Future;
use vstd::future::FutureAdditionalSpecFns;
use vstd::prelude::*;

verus! {

/// The wrapped sequence for one future: a single left branch.
pub open spec fn single_seq<A>(a: A) -> Seq<Either<A, A>> {
    seq![Either::Left(a)]
}

/// The wrapped sequence for a first future and an already wrapped tail: the
/// first future in a left branch, then every element of the tail, in its
/// order, in a right branch.
pub open spec fn prepend_seq<A, B>(head: A, tail: Seq<B>) -> Seq<Either<A, B>> {
    seq![Either::Left(head)] + tail.map_values(|b: B| Either::Right(b))
}

/// No future at all: the empty sequence, of whatever element type the caller needs.
pub fn empty<T>() -> (r: Vec<T>)
    ensures
        r@ == Seq::<T>::empty(),
{
    Vec::new()
}

/// One future: the sequence that holds it in a left branch.
pub fn single<A: Future>(a: A) -> (r: Vec<Either<A, A>>)
    ensures
        r@ == single_seq(a),
        r@[0]@ == a@,
{
    let mut out: Vec<Either<A, A>> = Vec::new();
    out.push(left_homogenous(a));
    out
}

/// A first future in front of an already wrapped tail.
pub fn prepend<A, B>(head: A, tail: Vec<B>) -> (r: Vec<Either<A, B>>)
    where
        A: Future,
        B: Future<Output = A::Output>,
    ensures
        r@ == prepend_seq(head, tail@),
        r@[0]@ == head@,
        forall|i: int| 0 < i < r@.len() ==> (#[trigger] r@[i])@ == tail@[i - 1]@,
{
    let mut out: Vec<Either<A, B>> = Vec::new();
    out.push(left(head));
    for b in it: tail.into_iter()
        invariant
            out@.len() == it.index() + 1,
            it.seq() == tail@,
            out@[0] == Either::<A, B>::Left(head),
            out@[0]@ == head@,
            forall|i: int| 0 < i < out@.len() ==> out@[i] == Either::<A, B>::Right(tail@[i - 1]),
            forall|i: int| 0 < i < out@.len() ==> (#[trigger] out@[i])@ == tail@[i - 1]@,
    {
        out.push(right(b));
    }
    assert(out@ =~= prepend_seq(head, tail@));
    out
}

} // verus!
