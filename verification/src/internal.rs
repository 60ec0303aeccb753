//! The two-branch wrapper and its constructors.

use futures::future::Either;
use std::future::Future;
use vstd::future::FutureAdditionalSpecFns;
use vstd::prelude::*;

verus! {

/// `futures::future::Either`, the two-variant enum `Left(A)` / `Right(B)`,
/// declared with its variants, so that a contract can say which branch a
/// value is and what it holds.
#[verifier::external_type_specification]
#[verifier::reject_recursive_types(A)]
#[verifier::reject_recursive_types(B)]
pub struct ExEither<A, B>(Either<A, B>);

/// Whether `e` is the left branch and holds `a`.
pub open spec fn is_left_of<A, B>(e: Either<A, B>, a: A) -> bool {
    e == Either::<A, B>::Left(a)
}

/// Whether `e` is the right branch and holds `b`.
pub open spec fn is_right_of<A, B>(e: Either<A, B>, b: B) -> bool {
    e == Either::<A, B>::Right(b)
}

/// Create an `Either<A, A>::Left` from an `A`.
///
/// The wrapper changes nothing of the future it holds: it resolves to the
/// value that `a` resolves to.
pub fn left_homogenous<A: Future>(a: A) -> (r: Either<A, A>)
    ensures
        r == Either::<A, A>::Left(a),
        r@ == a@,
{
    left(a)
}

/// Builds `futures::future::Either::Left(a)` for a future `a`.
///
/// Trusted: the result is that variant, and, as a future, it resolves to the
/// value that `a` resolves to. The second claim rests on `Either`'s
/// implementation of `Future`, whose `poll` forwards to the branch it holds.
#[verifier::external_body]
pub(crate) fn left<A, B>(a: A) -> (r: Either<A, B>)
    where
        A: Future,
        B: Future<Output = A::Output>,
    ensures
        is_left_of(r, a),
        r@ == a@,
{
    Either::Left(a)
}

/// Builds `futures::future::Either::Right(b)` for a future `b`.
///
/// Trusted: the result is that variant, and, as a future, it resolves to the
/// value that `b` resolves to. The second claim rests on `Either`'s
/// implementation of `Future`, whose `poll` forwards to the branch it holds.
#[verifier::external_body]
pub(crate) fn right<A, B>(b: B) -> (r: Either<A, B>)
    where
        A: Future,
        B: Future<Output = A::Output>,
    ensures
        is_right_of(r, b),
        r@ == b@,
{
    Either::Right(b)
}

} // verus!
