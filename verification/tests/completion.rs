use futures::executor::block_on;
use futures::future::{ready, Either, FutureExt, Ready};
use futures::stream::{FuturesOrdered, FuturesUnordered, StreamExt};
use hetero_futures::homogeneous::{empty, prepend, single};
use std::future::Future;
use std::time::Duration;
use tokio::runtime::{Builder, Runtime};
use tokio::time::{sleep, Sleep};

type Timed = futures::future::Map<Sleep, fn(()) -> u8>;
type Two = Either<Timed, Either<Timed, Timed>>;
type Four = Either<Timed, Either<Timed, Either<Timed, Either<Timed, Timed>>>>;
type ThreeReady = Either<Ready<u8>, Either<Ready<u8>, Either<Ready<u8>, Ready<u8>>>>;

fn one(_: ()) -> u8 {
    1
}

fn two(_: ()) -> u8 {
    2
}

fn three(_: ()) -> u8 {
    3
}

fn four(_: ()) -> u8 {
    4
}

fn runtime() -> Runtime {
    Builder::new_multi_thread().worker_threads(1).enable_time().build().unwrap()
}

fn test1() -> Timed {
    sleep(Duration::from_millis(400)).map(one)
}

fn test2() -> Timed {
    sleep(Duration::from_millis(300)).map(two)
}

fn test3() -> Timed {
    sleep(Duration::from_millis(200)).map(three)
}

fn test4() -> Timed {
    sleep(Duration::from_millis(100)).map(four)
}

fn all_four() -> Vec<Four> {
    prepend(test1(), prepend(test2(), prepend(test3(), single(test4()))))
}

fn in_order<F: Future>(futs: Vec<F>) -> Vec<F::Output> {
    block_on(FuturesOrdered::from_iter(futs).collect())
}

fn as_completed<F: Future>(futs: Vec<F>) -> Vec<F::Output> {
    block_on(FuturesUnordered::from_iter(futs).collect())
}

#[test]
fn test_ordered() {
    let rt: Runtime = runtime();
    let _guard = rt.enter();
    let stream: FuturesOrdered<Four> = FuturesOrdered::from_iter(all_four());
    let res: Vec<u8> = rt.block_on(stream.collect());
    assert_eq!(vec![1, 2, 3, 4], res);
}

#[test]
fn test_unordered() {
    let rt: Runtime = runtime();
    let _guard = rt.enter();
    let stream: FuturesUnordered<Four> = FuturesUnordered::from_iter(all_four());
    let res: Vec<u8> = rt.block_on(stream.collect());
    assert_eq!(vec![4, 3, 2, 1], res);
}

#[test]
fn as_completed_every_value_comes_once() {
    let futs: Vec<ThreeReady> = prepend(ready(7u8), prepend(ready(7u8), single(ready(9u8))));
    let mut res: Vec<u8> = as_completed(futs);
    res.sort();
    assert_eq!(res, vec![7, 7, 9]);
}

#[test]
fn in_order_every_value_comes_at_its_position() {
    let futs: Vec<ThreeReady> = prepend(ready(7u8), prepend(ready(9u8), single(ready(7u8))));
    assert_eq!(in_order(futs), vec![7, 9, 7]);
}

#[test]
fn no_future_gives_no_value_in_either_mode() {
    let none: Vec<Ready<u8>> = empty();
    assert_eq!(in_order(none), Vec::<u8>::new());
    let none: Vec<Ready<u8>> = empty();
    assert_eq!(as_completed(none), Vec::<u8>::new());
}

#[test]
fn one_future_gives_its_value_in_either_mode() {
    assert_eq!(in_order(single(ready(5u8))), vec![5]);
    assert_eq!(as_completed(single(ready(5u8))), vec![5]);
}

#[test]
fn one_slow_future_gives_its_value_in_either_mode() {
    let rt: Runtime = runtime();
    let _guard = rt.enter();
    assert_eq!(in_order(single(test4())), vec![4]);
    assert_eq!(as_completed(single(test4())), vec![4]);
}

#[test]
fn running_twice_gives_the_same_values() {
    let rt: Runtime = runtime();
    let _guard = rt.enter();
    let first: Vec<u8> = in_order(all_four());
    let second: Vec<u8> = in_order(all_four());
    assert_eq!(first, second);
    assert_eq!(first, vec![1, 2, 3, 4]);
    let mut first: Vec<u8> = as_completed(all_four());
    let mut second: Vec<u8> = as_completed(all_four());
    first.sort();
    second.sort();
    assert_eq!(first, second);
    assert_eq!(first, vec![1, 2, 3, 4]);
}

#[test]
fn in_order_does_not_follow_completion() {
    let rt: Runtime = runtime();
    let _guard = rt.enter();
    let slow_first: Vec<Two> = prepend(test1(), single(test4()));
    assert_eq!(in_order(slow_first), vec![1, 4]);
    let fast_first: Vec<Two> = prepend(test4(), single(test1()));
    assert_eq!(in_order(fast_first), vec![4, 1]);
}

#[test]
fn as_completed_follows_completion() {
    let rt: Runtime = runtime();
    let _guard = rt.enter();
    let slow_first: Vec<Two> = prepend(test1(), single(test4()));
    assert_eq!(as_completed(slow_first), vec![4, 1]);
    let fast_first: Vec<Two> = prepend(test4(), single(test1()));
    assert_eq!(as_completed(fast_first), vec![4, 1]);
}
