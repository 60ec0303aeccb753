//! What comes of a homogeneous sequence when it is run to completion.
//!
//! Running is the caller's part: an executor polls the futures, and a future
//! may take any time, or never complete. This module runs nothing. It states
//! what the two ways of running give, over the values that the futures
//! resolve to (`f@`), and proves what follows for sequences built by
//! [`crate::homogeneous`].
//!
//! - In order: the outcome holds, at each position, the value of the future
//!   at that position.
//! - As completed: the outcome holds the value of each future once, in some
//!   order; it is a rearrangement of the values.

use futures::future::Either;
use std::future::Future;
use vstd::future::FutureAdditionalSpecFns;
use vstd::prelude::*;

verus! {

/// Whether `r` holds the values of `vs`, each as often as `vs` does, in some order.
pub open spec fn rearranges<T>(r: Seq<T>, vs: Seq<T>) -> bool {
    r.to_multiset() == vs.to_multiset()
}

/// A rearrangement is as long as what it rearranges.
pub proof fn lemma_rearranges_len<T>(r: Seq<T>, vs: Seq<T>)
    requires
        rearranges(r, vs),
    ensures
        r.len() == vs.len(),
{
    r.to_multiset_ensures();
    vs.to_multiset_ensures();
}

/// A rearrangement holds a value exactly if what it rearranges holds it.
pub proof fn lemma_rearranges_contains<T>(r: Seq<T>, vs: Seq<T>, x: T)
    requires
        rearranges(r, vs),
    ensures
        r.contains(x) <==> vs.contains(x),
{
    r.to_multiset_ensures();
    vs.to_multiset_ensures();
    assert(r.contains(x) <==> r.to_multiset().count(x) > 0);
    assert(vs.contains(x) <==> vs.to_multiset().count(x) > 0);
}

/// Nothing, or one value alone, can be rearranged in one way only: without
/// futures both ways of running give nothing, and with one future both give
/// its value alone.
pub proof fn lemma_rearranges_short<T>(r: Seq<T>, vs: Seq<T>)
    requires
        rearranges(r, vs),
        vs.len() <= 1,
    ensures
        r == vs,
{
    lemma_rearranges_len(r, vs);
    if vs.len() == 1 {
        lemma_rearranges_contains(r, vs, r[0]);
        assert(r.contains(r[0]));
    }
    assert(r =~= vs);
}

/// A sequence built from a first future and a tail, run in order, gives the
/// value of the first future and then what the tail gives when run in order,
/// whenever each future completes.
///
/// `built` is the sequence as `prepend` makes it; `tail_out` and `out` are
/// the outcomes of running `tail` and `built` in order.
pub proof fn lemma_prepend_in_order<A, B>(
    head: A,
    tail: Seq<B>,
    built: Seq<Either<A, B>>,
    tail_out: Seq<A::Output>,
    out: Seq<A::Output>,
)
    where
        A: Future,
        B: Future<Output = A::Output>,
    requires
        built.len() == tail.len() + 1,
        built[0]@ == head@,
        forall|i: int| 0 < i < built.len() ==> (#[trigger] built[i])@ == tail[i - 1]@,
        tail_out == Seq::new(tail.len(), |i: int| tail[i]@),
        out == Seq::new(built.len(), |i: int| built[i]@),
    ensures
        out == seq![head@] + tail_out,
{
    assert(out =~= seq![head@] + tail_out);
}

/// A sequence built from a first future and a tail, run as completed, gives
/// the value of the first future and the values that the tail gives, each
/// once, in some order.
///
/// `built` is the sequence as `prepend` makes it; `tail_out` and `out` are
/// outcomes of running `tail` and `built` as completed.
pub proof fn lemma_prepend_as_completed<A, B>(
    head: A,
    tail: Seq<B>,
    built: Seq<Either<A, B>>,
    tail_out: Seq<A::Output>,
    out: Seq<A::Output>,
)
    where
        A: Future,
        B: Future<Output = A::Output>,
    requires
        built.len() == tail.len() + 1,
        built[0]@ == head@,
        forall|i: int| 0 < i < built.len() ==> (#[trigger] built[i])@ == tail[i - 1]@,
        rearranges(tail_out, Seq::new(tail.len(), |i: int| tail[i]@)),
        rearranges(out, Seq::new(built.len(), |i: int| built[i]@)),
    ensures
        rearranges(out, seq![head@] + tail_out),
        out.len() == tail.len() + 1,
{
    let first = seq![head@];
    let tail_values = Seq::new(tail.len(), |i: int| tail[i]@);
    let built_values = Seq::new(built.len(), |i: int| built[i]@);
    assert(built_values =~= first + tail_values);
    vstd::seq_lib::lemma_multiset_commutative(first, tail_values);
    vstd::seq_lib::lemma_multiset_commutative(first, tail_out);
    lemma_rearranges_len(out, built_values);
}

/// Two runs in order over futures that resolve, position by position, to the
/// same values give the same sequence.
pub proof fn lemma_twice_same_sequence<F, G>(
    first: Seq<F>,
    second: Seq<G>,
    r1: Seq<F::Output>,
    r2: Seq<F::Output>,
)
    where
        F: Future,
        G: Future<Output = F::Output>,
    requires
        first.len() == second.len(),
        forall|i: int| 0 <= i < first.len() ==> first[i]@ == second[i]@,
        r1 == Seq::new(first.len(), |i: int| first[i]@),
        r2 == Seq::new(second.len(), |i: int| second[i]@),
    ensures
        r1 == r2,
{
    assert(r1 =~= r2);
}

/// Two runs, each in either way, over futures that resolve, position by
/// position, to the same values give the same values, each as often: no run
/// leaves anything behind for the next.
pub proof fn lemma_twice_same_values<F, G>(
    first: Seq<F>,
    second: Seq<G>,
    r1: Seq<F::Output>,
    r2: Seq<F::Output>,
)
    where
        F: Future,
        G: Future<Output = F::Output>,
    requires
        first.len() == second.len(),
        forall|i: int| 0 <= i < first.len() ==> first[i]@ == second[i]@,
        rearranges(r1, Seq::new(first.len(), |i: int| first[i]@)),
        rearranges(r2, Seq::new(second.len(), |i: int| second[i]@)),
    ensures
        rearranges(r1, r2),
        forall|x: F::Output| r1.contains(x) <==> r2.contains(x),
{
    let v1 = Seq::new(first.len(), |i: int| first[i]@);
    let v2 = Seq::new(second.len(), |i: int| second[i]@);
    assert(v1 =~= v2);
    assert forall|x: F::Output| r1.contains(x) <==> r2.contains(x) by {
        lemma_rearranges_contains(r1, v1, x);
        lemma_rearranges_contains(r2, v2, x);
    }
}

} // verus!
