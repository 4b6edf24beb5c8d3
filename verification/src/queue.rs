//! Units over the lock-free queues of `crossbeam`: pushers that take a value
//! and poppers that give one if there is one.
//!
//! A queue is shared between threads, so its contents are not a function of
//! what one holder did to it, and the contracts state only what holds of
//! every outcome.

use crate::retry::RetryError;
use crate::retry::Retryable;
use crate::service::Service;
use crossbeam::queue::ArrayQueue;
use crossbeam::queue::SegQueue;
use std::convert::Infallible;
use std::sync::Arc;
use vstd::prelude::*;

verus! {

/// `crossbeam::queue::ArrayQueue`, a bounded queue.
#[verifier::external_type_specification]
#[verifier::external_body]
#[verifier::reject_recursive_types(T)]
pub struct ExArrayQueue<T>(ArrayQueue<T>);

/// `crossbeam::queue::SegQueue`, an unbounded queue.
#[verifier::external_type_specification]
#[verifier::external_body]
#[verifier::reject_recursive_types(T)]
pub struct ExSegQueue<T>(SegQueue<T>);

/// `ArrayQueue::push`: where the queue is full, the value comes back as the
/// error.
pub assume_specification<T>[ ArrayQueue::<T>::push ](queue: &ArrayQueue<T>, value: T) -> (pushed:
    Result<(), T>)
    ensures
        pushed is Err ==> pushed->Err_0 == value,
;

/// `ArrayQueue::force_push`: the value is pushed, and where the queue was
/// full its oldest element is returned. Nothing is stated of that element.
pub assume_specification<T>[ ArrayQueue::<T>::force_push ](
    queue: &ArrayQueue<T>,
    value: T,
) -> Option<T>;

/// `ArrayQueue::pop`: nothing is stated of what comes out.
pub assume_specification<T>[ ArrayQueue::<T>::pop ](queue: &ArrayQueue<T>) -> Option<T>;

/// `SegQueue::push`.
pub assume_specification<T>[ SegQueue::<T>::push ](queue: &SegQueue<T>, value: T);

/// `SegQueue::pop`: nothing is stated of what comes out.
pub assume_specification<T>[ SegQueue::<T>::pop ](queue: &SegQueue<T>) -> Option<T>;

/// A [`Service`] that pushes its input to a bounded queue and fails with the
/// input where the queue is full. Its classifier retries with that input.
#[verifier::reject_recursive_types(T)]
pub struct ArrayQueuePusher<T> {
    pub q: Arc<ArrayQueue<T>>,
}

impl<T> ArrayQueuePusher<T> {
    pub fn new(q: Arc<ArrayQueue<T>>) -> (service: Self)
        ensures
            service.q == q,
    {
        Self { q }
    }
}

impl<T> Service for ArrayQueuePusher<T> {
    type Input = T;

    type Output = ();

    type Error = T;

    open spec fn accepts(&self, input: T) -> bool {
        true
    }

    /// What `push` gives for the input on this queue; a failure is the
    /// input itself.
    open spec fn yields(&self, input: T, result: Result<(), T>) -> bool {
        &&& call_ensures(ArrayQueue::<T>::push, (&*self.q, input), result)
        &&& result is Err ==> result->Err_0 == input
    }

    fn process(&self, input: T) -> (result: Result<(), T>) {
        self.q.push(input)
    }
}

impl<T> Retryable<T, T> for ArrayQueuePusher<T> {
    /// Every failure is retried, with the value that came back.
    open spec fn retries(&self, err: T, verdict: Result<T, RetryError<T>>) -> bool {
        verdict == Ok::<T, RetryError<T>>(err)
    }

    fn parse_retry(&self, err: T) -> (verdict: Result<T, RetryError<T>>) {
        Ok(err)
    }
}

/// A [`Service`] that pushes its input to a bounded queue and, where the
/// queue is full, makes room by taking out the oldest element, which is then
/// the output.
#[verifier::reject_recursive_types(T)]
pub struct ArrayQueueForcePusher<T> {
    pub q: Arc<ArrayQueue<T>>,
}

impl<T> ArrayQueueForcePusher<T> {
    pub fn new(q: Arc<ArrayQueue<T>>) -> (service: Self)
        ensures
            service.q == q,
    {
        Self { q }
    }
}

impl<T> Service for ArrayQueueForcePusher<T> {
    type Input = T;

    type Output = Option<T>;

    type Error = Infallible;

    open spec fn accepts(&self, input: T) -> bool {
        true
    }

    /// Never a failure: `Ok` with what `force_push` gives for the input on
    /// this queue.
    open spec fn yields(&self, input: T, result: Result<Option<T>, Infallible>) -> bool {
        &&& result is Ok
        &&& call_ensures(ArrayQueue::<T>::force_push, (&*self.q, input), result->Ok_0)
    }

    fn process(&self, input: T) -> (result: Result<Option<T>, Infallible>) {
        Ok(self.q.force_push(input))
    }
}

/// A [`Service`] that pops from a bounded queue: `Some` with the oldest
/// element, `None` where the queue is empty.
#[verifier::reject_recursive_types(T)]
pub struct ArrayQueuePopper<T> {
    pub q: Arc<ArrayQueue<T>>,
}

impl<T> ArrayQueuePopper<T> {
    pub fn new(q: Arc<ArrayQueue<T>>) -> (service: Self)
        ensures
            service.q == q,
    {
        Self { q }
    }
}

impl<T> Service for ArrayQueuePopper<T> {
    type Input = ();

    type Output = Option<T>;

    type Error = Infallible;

    open spec fn accepts(&self, input: ()) -> bool {
        true
    }

    /// Never a failure: `Ok` with what `pop` gives on this queue.
    open spec fn yields(&self, input: (), result: Result<Option<T>, Infallible>) -> bool {
        &&& result is Ok
        &&& call_ensures(ArrayQueue::<T>::pop, (&*self.q,), result->Ok_0)
    }

    fn process(&self, input: ()) -> (result: Result<Option<T>, Infallible>) {
        Ok(self.q.pop())
    }
}

/// A [`Service`] that pushes its input to an unbounded queue.
#[verifier::reject_recursive_types(T)]
pub struct SegQueuePusher<T> {
    pub q: Arc<SegQueue<T>>,
}

impl<T> SegQueuePusher<T> {
    pub fn new(q: Arc<SegQueue<T>>) -> (service: Self)
        ensures
            service.q == q,
    {
        Self { q }
    }
}

impl<T> Service for SegQueuePusher<T> {
    type Input = T;

    type Output = ();

    type Error = Infallible;

    open spec fn accepts(&self, input: T) -> bool {
        true
    }

    /// Never a failure, once `push` has taken the input on this queue.
    open spec fn yields(&self, input: T, result: Result<(), Infallible>) -> bool {
        &&& result is Ok
        &&& call_ensures(SegQueue::<T>::push, (&*self.q, input), ())
    }

    fn process(&self, input: T) -> (result: Result<(), Infallible>) {
        let pushed = self.q.push(input);
        assert(pushed =~= ());
        Ok(())
    }
}

/// A [`Service`] that pops from an unbounded queue: `Some` with the oldest
/// element, `None` where the queue is empty.
#[verifier::reject_recursive_types(T)]
pub struct SegQueuePopper<T> {
    pub q: Arc<SegQueue<T>>,
}

impl<T> SegQueuePopper<T> {
    pub fn new(q: Arc<SegQueue<T>>) -> (service: Self)
        ensures
            service.q == q,
    {
        Self { q }
    }
}

impl<T> Service for SegQueuePopper<T> {
    type Input = ();

    type Output = Option<T>;

    type Error = Infallible;

    open spec fn accepts(&self, input: ()) -> bool {
        true
    }

    /// Never a failure: `Ok` with what `pop` gives on this queue.
    open spec fn yields(&self, input: (), result: Result<Option<T>, Infallible>) -> bool {
        &&& result is Ok
        &&& call_ensures(SegQueue::<T>::pop, (&*self.q,), result->Ok_0)
    }

    fn process(&self, input: ()) -> (result: Result<Option<T>, Infallible>) {
        Ok(self.q.pop())
    }
}

} // verus!
