//! Retrying a unit of work: the error that ends a retry, the classifier that
//! tells a passing failure from a final one, and the orchestrator that drives
//! a unit until it succeeds, fails for good or is interrupted.

use crate::service::MutService;
use crate::service::Service;
use crate::text::render;
use crate::text::renders;
use crate::text::write_text;
use std::fmt::Debug;
use std::fmt::Formatter;
use vstd::prelude::*;
use vstd::std_specs::cmp::PartialEqSpec;
use vstd::std_specs::cmp::PartialEqSpecImpl;

verus! {

/// How a retry or a poll ends when it does not end in a value.
pub enum RetryError<E> {
    /// The idle strategy asked to stop.
    Interrupted,
    /// The unit failed, and the failure is final.
    ServiceError(E),
}

impl<E: Clone> Clone for RetryError<E> {
    fn clone(&self) -> (copy: Self)
        ensures
            match *self {
                RetryError::Interrupted => copy is Interrupted,
                RetryError::ServiceError(err) => copy is ServiceError && cloned(
                    err,
                    copy->ServiceError_0,
                ),
            },
    {
        match self {
            RetryError::Interrupted => RetryError::Interrupted,
            RetryError::ServiceError(err) => RetryError::ServiceError(err.clone()),
        }
    }
}

impl<E: PartialEq> PartialEq for RetryError<E> {
    fn eq(&self, other: &Self) -> (equal: bool) {
        match self {
            Self::Interrupted => match other {
                Self::Interrupted => true,
                Self::ServiceError(_) => false,
            },
            Self::ServiceError(err) => match other {
                Self::Interrupted => false,
                Self::ServiceError(other_err) => err == other_err,
            },
        }
    }
}

impl<E: PartialEq> PartialEqSpecImpl for RetryError<E> {
    open spec fn obeys_eq_spec() -> bool {
        E::obeys_eq_spec()
    }

    /// Two interruptions are equal; two failures are equal as their causes
    /// are; an interruption equals no failure.
    open spec fn eq_spec(&self, other: &Self) -> bool {
        match (self, other) {
            (RetryError::Interrupted, RetryError::Interrupted) => true,
            (RetryError::ServiceError(a), RetryError::ServiceError(b)) => a.eq_spec(b),
            _ => false,
        }
    }
}

impl<E: Debug> RetryError<E> {
    /// The text under which this error is shown: `Interrupted` for an
    /// interruption, and for a failure its `Debug` rendering alone.
    pub fn describe(&self) -> (text: String)
        ensures
            *self is Interrupted ==> text@ == "Interrupted"@,
            *self is ServiceError ==> renders(&self->ServiceError_0, text),
    {
        match self {
            RetryError::Interrupted => "Interrupted".to_owned(),
            RetryError::ServiceError(err) => render(err),
        }
    }
}

impl<E: Debug> Debug for RetryError<E> {
    fn fmt(&self, f: &mut Formatter<'_>) -> Result<(), std::fmt::Error> {
        let text = self.describe();
        write_text(f, text.as_str())
    }
}

/// Implemented by units whose failures may be passing: a classifier from a
/// failure to the input of the next attempt, or to the error that ends the
/// retry.
pub trait Retryable<I, E> {
    /// Whether `verdict` is an answer that `parse_retry` may give for `err`.
    open spec fn retries(&self, err: E, verdict: Result<I, RetryError<E>>) -> bool {
        true
    }

    /// `Ok(input)` to try again with `input`, `Err` to stop.
    fn parse_retry(&self, err: E) -> (verdict: Result<I, RetryError<E>>)
        ensures
            self.retries(err, verdict),
    ;
}

/// What a retry does after a failed attempt.
pub enum RetryStep<I, E> {
    /// Attempt again with this input.
    Again(I),
    /// Stop with this error.
    Finish(RetryError<E>),
}

/// The decision after a failed attempt, given what the idle strategy
/// answered. An interruption wins over the failure, which is then dropped
/// unclassified; otherwise the classifier decides.
pub fn after_failure<I, E, S: Retryable<I, E>>(
    service: &S,
    err: E,
    idled: Result<(), RetryError<E>>,
) -> (step: RetryStep<I, E>)
    ensures
        match idled {
            Err(stop) => step == RetryStep::<I, E>::Finish(stop),
            Ok(()) => match step {
                RetryStep::Again(input) => service.retries(err, Ok(input)),
                RetryStep::Finish(stop) => service.retries(err, Err(stop)),
            },
        },
{
    match idled {
        Err(stop) => RetryStep::Finish(stop),
        Ok(()) => match service.parse_retry(err) {
            Ok(input) => RetryStep::Again(input),
            Err(stop) => RetryStep::Finish(stop),
        },
    }
}

/// Whether an idle strategy may be called on every attempt number.
pub open spec fn idles_always<E, F>(idle: F) -> bool where F: Fn(usize) -> Result<(), RetryError<E>> {
    forall|attempt: usize| #[trigger] idle.requires((attempt,))
}

/// Whether a unit accepts every input that its classifier hands back for a
/// failure on an input that it accepted.
pub open spec fn accepts_retries<S>(service: S) -> bool where
    S: Service + Retryable<S::Input, S::Error>,
 {
    forall|tried: S::Input, err: S::Error, next: S::Input|
        service.accepts(tried) && #[trigger] service.yields(tried, Err(err))
            && #[trigger] service.retries(err, Ok(next)) ==> service.accepts(next)
}

/// Whether an exclusive unit, in whatever state a failure on an accepted
/// input leaves it, accepts the input that its classifier then hands back.
pub open spec fn accepts_retries_mut<S>() -> bool where
    S: MutService + Retryable<S::Input, S::Error>,
 {
    forall|before: S, tried: S::Input, failed: S, err: S::Error, next: S::Input|
        before.accepts_mut(tried) && #[trigger] before.yields_mut(tried, &failed, Err(err))
            && #[trigger] failed.retries(err, Ok(next)) ==> failed.accepts_mut(next)
}

/// Whether a retry of `service` that starts attempt number `attempt` on
/// `input` may end in `result` after calling the unit `calls` times.
///
/// The attempt number is what the idle strategy is handed; it grows by one
/// with each failed attempt, and the retry gives up as interrupted rather
/// than count past `usize::MAX`.
pub open spec fn retry_run<S, F>(
    service: S,
    idle: F,
    input: S::Input,
    attempt: usize,
    calls: int,
    result: Result<S::Output, RetryError<S::Error>>,
) -> bool where
    S: Service + Retryable<S::Input, S::Error>,
    F: Fn(usize) -> Result<(), RetryError<S::Error>>,
 
    decreases usize::MAX - attempt, 1int,
{
    &&& calls >= 1
    &&& {
        ||| calls == 1 && result is Ok && service.yields(input, Ok(result->Ok_0))
        ||| exists|err: S::Error| #[trigger]
            service.yields(input, Err(err)) && retry_after(
                service,
                idle,
                err,
                attempt,
                calls - 1,
                result,
            )
    }
}

/// Whether a retry whose attempt number `attempt` failed with `err` may end
/// in `result` after calling the unit `more` times more.
pub open spec fn retry_after<S, F>(
    service: S,
    idle: F,
    err: S::Error,
    attempt: usize,
    more: int,
    result: Result<S::Output, RetryError<S::Error>>,
) -> bool where
    S: Service + Retryable<S::Input, S::Error>,
    F: Fn(usize) -> Result<(), RetryError<S::Error>>,
 
    decreases usize::MAX - attempt, 0int,
{
    ||| more == 0 && result is Err && idle.ensures((attempt,), Err(result->Err_0))
    ||| {
        &&& idle.ensures((attempt,), Ok(()))
        &&& {
            ||| more == 0 && result is Err && service.retries(err, Err(result->Err_0))
            ||| exists|next: S::Input| #[trigger]
                service.retries(err, Ok(next)) && if attempt < usize::MAX {
                    retry_run(service, idle, next, (attempt + 1) as usize, more, result)
                } else {
                    more == 0 && result == Err::<S::Output, RetryError<S::Error>>(
                        RetryError::Interrupted,
                    )
                }
        }
    }
}

/// A unit that retries another until it succeeds, fails for good or is
/// interrupted.
///
/// When the wrapped unit fails, the idle strategy is called with the number
/// of failed attempts so far; if it answers `Ok`, the failure is handed to
/// the unit's [`Retryable`] classifier, which gives the input of the next
/// attempt or the error to stop with.
#[verifier::reject_recursive_types(E)]
pub struct RetryService<E, S, F> where F: Fn(usize) -> Result<(), RetryError<E>> {
    pub service: S,
    pub idle: F,
}

impl<E, S, F> RetryService<E, S, F> where F: Fn(usize) -> Result<(), RetryError<E>> {
    pub fn new(service: S, idle: F) -> (retry: Self)
        ensures
            retry.service == service,
            retry.idle == idle,
    {
        Self { service, idle }
    }
}

impl<E, S, F> Service for RetryService<E, S, F> where
    S: Service<Error = E> + Retryable<S::Input, E>,
    F: Fn(usize) -> Result<(), RetryError<E>>,
 {
    type Input = S::Input;

    type Output = S::Output;

    type Error = RetryError<S::Error>;

    /// The unit accepts the input and every input its classifier hands back
    /// for a failure on an accepted input, and the idle strategy may be
    /// called on every attempt number.
    open spec fn accepts(&self, input: Self::Input) -> bool {
        &&& self.service.accepts(input)
        &&& idles_always(self.idle)
        &&& accepts_retries(self.service)
    }

    /// Some run of the retry from attempt number 0 ends in `result`.
    open spec fn yields(&self, input: Self::Input, result: Result<Self::Output, Self::Error>) -> bool {
        exists|calls: int| retry_run(self.service, self.idle, input, 0, calls, result)
    }

    fn process(&self, input: Self::Input) -> (result: Result<Self::Output, Self::Error>) {
        let mut current = input;
        let mut attempt: usize = 0;
        loop
            invariant
                self.accepts(input),
                self.service.accepts(current),
                forall|calls: int, end: Result<Self::Output, Self::Error>|
                    #[trigger] retry_run(self.service, self.idle, current, attempt, calls, end)
                        ==> retry_run(self.service, self.idle, input, 0, calls + attempt, end),
            decreases usize::MAX - attempt,
        {
            let ghost tried = current;
            match self.service.process(current) {
                Ok(value) => {
                    assert(retry_run(self.service, self.idle, tried, attempt, 1, Ok(value)));
                    return Ok(value);
                },
                Err(err) => {
                    let idled = (self.idle)(attempt);
                    assert(idled is Ok ==> idled->Ok_0 =~= ());
                    match after_failure(&self.service, err, idled) {
                        RetryStep::Finish(stop) => {
                            assert(retry_after(self.service, self.idle, err, attempt, 0, Err(stop)));
                            assert(retry_run(self.service, self.idle, tried, attempt, 1, Err(stop)));
                            return Err(stop);
                        },
                        RetryStep::Again(next) => {
                            if attempt == usize::MAX {
                                let stop = RetryError::Interrupted;
                                assert(retry_after(
                                    self.service,
                                    self.idle,
                                    err,
                                    attempt,
                                    0,
                                    Err(stop),
                                ));
                                assert(retry_run(
                                    self.service,
                                    self.idle,
                                    tried,
                                    attempt,
                                    1,
                                    Err(stop),
                                ));
                                return Err(stop);
                            }
                            assert forall|calls: int, end: Result<Self::Output, Self::Error>|
                                #[trigger] retry_run(
                                    self.service,
                                    self.idle,
                                    next,
                                    (attempt + 1) as usize,
                                    calls,
                                    end,
                                ) implies retry_run(
                                self.service,
                                self.idle,
                                input,
                                0,
                                calls + attempt + 1,
                                end,
                            ) by {
                                assert(retry_after(
                                    self.service,
                                    self.idle,
                                    err,
                                    attempt,
                                    calls,
                                    end,
                                ));
                                assert(retry_run(
                                    self.service,
                                    self.idle,
                                    tried,
                                    attempt,
                                    calls + 1,
                                    end,
                                ));
                            }
                            current = next;
                            attempt += 1;
                        },
                    }
                },
            }
        }
    }
}

/// Whether a retry of an exclusive unit in state `service`, starting attempt
/// number `attempt` on `input`, may leave the unit as `last` and end in
/// `result` after calling it `calls` times.
pub open spec fn retry_run_mut<S, F>(
    service: S,
    idle: F,
    input: S::Input,
    attempt: usize,
    calls: int,
    last: S,
    result: Result<S::Output, RetryError<S::Error>>,
) -> bool where
    S: MutService + Retryable<S::Input, S::Error>,
    F: Fn(usize) -> Result<(), RetryError<S::Error>>,
 
    decreases usize::MAX - attempt, 1int,
{
    &&& calls >= 1
    &&& {
        ||| calls == 1 && result is Ok && service.yields_mut(input, &last, Ok(result->Ok_0))
        ||| exists|err: S::Error, failed: S| #[trigger]
            service.yields_mut(input, &failed, Err(err)) && retry_after_mut(
                failed,
                idle,
                err,
                attempt,
                calls - 1,
                last,
                result,
            )
    }
}

/// Whether a retry whose attempt number `attempt` failed with `err` and left
/// the unit as `failed` may leave it as `last` and end in `result` after
/// calling it `more` times more.
pub open spec fn retry_after_mut<S, F>(
    failed: S,
    idle: F,
    err: S::Error,
    attempt: usize,
    more: int,
    last: S,
    result: Result<S::Output, RetryError<S::Error>>,
) -> bool where
    S: MutService + Retryable<S::Input, S::Error>,
    F: Fn(usize) -> Result<(), RetryError<S::Error>>,
 
    decreases usize::MAX - attempt, 0int,
{
    ||| more == 0 && last == failed && result is Err && idle.ensures(
        (attempt,),
        Err(result->Err_0),
    )
    ||| {
        &&& idle.ensures((attempt,), Ok(()))
        &&& {
            ||| more == 0 && last == failed && result is Err && failed.retries(
                err,
                Err(result->Err_0),
            )
            ||| exists|next: S::Input| #[trigger]
                failed.retries(err, Ok(next)) && if attempt < usize::MAX {
                    retry_run_mut(failed, idle, next, (attempt + 1) as usize, more, last, result)
                } else {
                    more == 0 && last == failed && result == Err::<
                        S::Output,
                        RetryError<S::Error>,
                    >(RetryError::Interrupted)
                }
        }
    }
}

impl<E, S, F> MutService for RetryService<E, S, F> where
    S: MutService<Error = E> + Retryable<S::Input, E>,
    F: Fn(usize) -> Result<(), RetryError<E>>,
 {
    type Input = S::Input;

    type Output = S::Output;

    type Error = RetryError<S::Error>;

    /// The unit accepts the input now, and in whatever state a failure on an
    /// accepted input leaves it, it accepts the input that its classifier
    /// hands back; the idle strategy may be called on every attempt number.
    open spec fn accepts_mut(&self, input: Self::Input) -> bool {
        &&& self.service.accepts_mut(input)
        &&& idles_always(self.idle)
        &&& accepts_retries_mut::<S>()
    }

    /// Some run of the retry from attempt number 0 leaves the wrapped unit as
    /// `next` holds it and ends in `result`; the idle strategy stays.
    open spec fn yields_mut(
        &self,
        input: Self::Input,
        next: &Self,
        result: Result<Self::Output, Self::Error>,
    ) -> bool {
        &&& next.idle == self.idle
        &&& exists|calls: int|
            retry_run_mut(self.service, self.idle, input, 0, calls, next.service, result)
    }

    fn process(&mut self, input: Self::Input) -> (result: Result<Self::Output, Self::Error>) {
        let mut current = input;
        let mut attempt: usize = 0;
        loop
            invariant
                old(self).accepts_mut(input),
                self.idle == old(self).idle,
                self.service.accepts_mut(current),
                forall|calls: int, last: S, end: Result<Self::Output, Self::Error>|
                    #[trigger] retry_run_mut(
                        self.service,
                        self.idle,
                        current,
                        attempt,
                        calls,
                        last,
                        end,
                    ) ==> retry_run_mut(
                        old(self).service,
                        self.idle,
                        input,
                        0,
                        calls + attempt,
                        last,
                        end,
                    ),
            decreases usize::MAX - attempt,
        {
            let ghost tried = current;
            let ghost before = self.service;
            match self.service.process(current) {
                Ok(value) => {
                    assert(retry_run_mut(
                        before,
                        self.idle,
                        tried,
                        attempt,
                        1,
                        self.service,
                        Ok(value),
                    ));
                    return Ok(value);
                },
                Err(err) => {
                    let idled = (self.idle)(attempt);
                    assert(idled is Ok ==> idled->Ok_0 =~= ());
                    match after_failure(&self.service, err, idled) {
                        RetryStep::Finish(stop) => {
                            assert(retry_after_mut(
                                self.service,
                                self.idle,
                                err,
                                attempt,
                                0,
                                self.service,
                                Err(stop),
                            ));
                            assert(retry_run_mut(
                                before,
                                self.idle,
                                tried,
                                attempt,
                                1,
                                self.service,
                                Err(stop),
                            ));
                            return Err(stop);
                        },
                        RetryStep::Again(next) => {
                            if attempt == usize::MAX {
                                let stop = RetryError::Interrupted;
                                assert(retry_after_mut(
                                    self.service,
                                    self.idle,
                                    err,
                                    attempt,
                                    0,
                                    self.service,
                                    Err(stop),
                                ));
                                assert(retry_run_mut(
                                    before,
                                    self.idle,
                                    tried,
                                    attempt,
                                    1,
                                    self.service,
                                    Err(stop),
                                ));
                                return Err(stop);
                            }
                            assert forall|calls: int, last: S, end: Result<Self::Output, Self::Error>|
                                #[trigger] retry_run_mut(
                                    self.service,
                                    self.idle,
                                    next,
                                    (attempt + 1) as usize,
                                    calls,
                                    last,
                                    end,
                                ) implies retry_run_mut(
                                old(self).service,
                                self.idle,
                                input,
                                0,
                                calls + attempt + 1,
                                last,
                                end,
                            ) by {
                                assert(retry_after_mut(
                                    self.service,
                                    self.idle,
                                    err,
                                    attempt,
                                    calls,
                                    last,
                                    end,
                                ));
                                assert(retry_run_mut(
                                    before,
                                    self.idle,
                                    tried,
                                    attempt,
                                    calls + 1,
                                    last,
                                    end,
                                ));
                            }
                            current = next;
                            attempt += 1;
                        },
                    }
                },
            }
        }
    }
}

/// A [`Service`] that turns a passing failure of the wrapped unit into
/// `Ok(None)`.
///
/// A value comes out as `Ok(Some(value))`. A failure is handed to the unit's
/// [`Retryable`] classifier: where that would retry, the result is `Ok(None)`
/// and the input it hands back is dropped; where it would stop, the result is
/// its error.
pub struct RetryToOptionService<S> {
    pub service: S,
}

impl<S> RetryToOptionService<S> {
    pub fn new(service: S) -> (wrapped: Self)
        ensures
            wrapped.service == service,
    {
        Self { service }
    }
}

impl<S> Service for RetryToOptionService<S> where S: Service + Retryable<S::Input, S::Error> {
    type Input = S::Input;

    type Output = Option<S::Output>;

    type Error = RetryError<S::Error>;

    open spec fn accepts(&self, input: Self::Input) -> bool {
        self.service.accepts(input)
    }

    open spec fn yields(&self, input: Self::Input, result: Result<Self::Output, Self::Error>) -> bool {
        match result {
            Ok(Some(value)) => self.service.yields(input, Ok(value)),
            Ok(None) => exists|err: S::Error, again: S::Input| #[trigger]
                self.service.yields(input, Err(err)) && #[trigger] self.service.retries(
                    err,
                    Ok(again),
                ),
            Err(stop) => exists|err: S::Error| #[trigger]
                self.service.yields(input, Err(err)) && self.service.retries(err, Err(stop)),
        }
    }

    fn process(&self, input: Self::Input) -> (result: Result<Self::Output, Self::Error>) {
        match self.service.process(input) {
            Ok(value) => Ok(Some(value)),
            Err(err) => match self.service.parse_retry(err) {
                Ok(_) => Ok(None),
                Err(stop) => Err(stop),
            },
        }
    }
}


/// A unit that cannot fail on an input is called exactly once by a retry on
/// that input, and the retry's result is the unit's own: no idling, no
/// classifying.
pub proof fn lemma_retry_first_success<S, F>(
    service: S,
    idle: F,
    input: S::Input,
    attempt: usize,
    calls: int,
    result: Result<S::Output, RetryError<S::Error>>,
) where S: Service + Retryable<S::Input, S::Error>, F: Fn(usize) -> Result<(), RetryError<S::Error>>
    requires
        forall|err: S::Error| !service.yields(input, Err(err)),
        retry_run(service, idle, input, attempt, calls, result),
    ensures
        calls == 1,
        result is Ok,
        service.yields(input, Ok(result->Ok_0)),
{
}

/// Every value that a unit may give on an input is a result of a retry on
/// that input, after one call.
pub proof fn lemma_retry_keeps_success<S, F>(
    service: S,
    idle: F,
    input: S::Input,
    attempt: usize,
    value: S::Output,
) where S: Service + Retryable<S::Input, S::Error>, F: Fn(usize) -> Result<(), RetryError<S::Error>>
    requires
        service.yields(input, Ok(value)),
    ensures
        retry_run(service, idle, input, attempt, 1, Ok(value)),
{
}

/// An exclusive unit that cannot fail on an input in its state is called
/// exactly once by a retry on that input: the retry's result and the state
/// it leaves are those of that one call.
pub proof fn lemma_retry_first_success_mut<S, F>(
    service: S,
    idle: F,
    input: S::Input,
    attempt: usize,
    calls: int,
    last: S,
    result: Result<S::Output, RetryError<S::Error>>,
) where
    S: MutService + Retryable<S::Input, S::Error>,
    F: Fn(usize) -> Result<(), RetryError<S::Error>>,

    requires
        forall|failed: S, err: S::Error| !service.yields_mut(input, &failed, Err(err)),
        retry_run_mut(service, idle, input, attempt, calls, last, result),
    ensures
        calls == 1,
        result is Ok,
        service.yields_mut(input, &last, Ok(result->Ok_0)),
{
}

/// A retry never ends in a failure that the idle strategy did not raise and
/// the classifier did not make final: where the idle strategy never stops
/// and fewer than `usize::MAX` attempts fail, an `Err` of the retry is a
/// verdict of the classifier.
pub proof fn lemma_retry_error_is_verdict<S, F>(
    service: S,
    idle: F,
    input: S::Input,
    attempt: usize,
    calls: int,
    result: Result<S::Output, RetryError<S::Error>>,
) where S: Service + Retryable<S::Input, S::Error>, F: Fn(usize) -> Result<(), RetryError<S::Error>>
    requires
        forall|at: usize, answer: Result<(), RetryError<S::Error>>|
            idle.ensures((at,), answer) ==> answer is Ok,
        attempt + calls <= usize::MAX,
        retry_run(service, idle, input, attempt, calls, result),
        result is Err,
    ensures
        exists|err: S::Error| service.retries(err, Err(result->Err_0)),
    decreases usize::MAX - attempt,
{
    let err = choose|err: S::Error| #[trigger]
        service.yields(input, Err(err)) && retry_after(
            service,
            idle,
            err,
            attempt,
            calls - 1,
            result,
        );
    assert(!idle.ensures((attempt,), Err(result->Err_0)));
    if calls - 1 == 0 && service.retries(err, Err(result->Err_0)) {
    } else {
        let next = choose|next: S::Input| #[trigger]
            service.retries(err, Ok(next)) && if attempt < usize::MAX {
                retry_run(service, idle, next, (attempt + 1) as usize, calls - 1, result)
            } else {
                calls - 1 == 0 && result == Err::<S::Output, RetryError<S::Error>>(
                    RetryError::Interrupted,
                )
            };
        lemma_retry_error_is_verdict(
            service,
            idle,
            next,
            (attempt + 1) as usize,
            calls - 1,
            result,
        );
    }
}

/// Where the classifier calls every failure of a unit on an input passing,
/// the unit wrapped into [`RetryToOptionService`] never fails on that input:
/// a value comes out as `Some`, a failure as `None`.
pub proof fn lemma_passing_failure_is_none<S>(
    wrapped: RetryToOptionService<S>,
    input: S::Input,
    result: Result<Option<S::Output>, RetryError<S::Error>>,
) where S: Service + Retryable<S::Input, S::Error>
    requires
        forall|err: S::Error, verdict: Result<S::Input, RetryError<S::Error>>|
            wrapped.service.yields(input, Err(err)) && #[trigger] wrapped.service.retries(
                err,
                verdict,
            ) ==> verdict is Ok,
        wrapped.yields(input, result),
    ensures
        result is Ok,
        result->Ok_0 is Some ==> wrapped.service.yields(input, Ok(result->Ok_0->Some_0)),
        result->Ok_0 is None ==> exists|err: S::Error| wrapped.service.yields(input, Err(err)),
{
}

/// An interruption wins over a failure: under an idle strategy that always
/// answers `Interrupted`, a retry calls the unit once and ends in the unit's
/// value or in `Interrupted`, whatever the failure was and whatever the
/// classifier would have said of it.
pub proof fn lemma_interruption_wins<S, F>(
    service: S,
    idle: F,
    input: S::Input,
    attempt: usize,
    calls: int,
    result: Result<S::Output, RetryError<S::Error>>,
) where S: Service + Retryable<S::Input, S::Error>, F: Fn(usize) -> Result<(), RetryError<S::Error>>
    requires
        forall|at: usize, answer: Result<(), RetryError<S::Error>>|
            idle.ensures((at,), answer) ==> answer == Err::<(), RetryError<S::Error>>(
                RetryError::Interrupted,
            ),
        retry_run(service, idle, input, attempt, calls, result),
    ensures
        calls == 1,
        result is Ok ==> service.yields(input, Ok(result->Ok_0)),
        result is Err ==> result->Err_0 == RetryError::<S::Error>::Interrupted,
{
    if !(calls == 1 && result is Ok && service.yields(input, Ok(result->Ok_0))) {
        assert(!idle.ensures((attempt,), Ok(())));
        assert(result is Err ==> (idle.ensures((attempt,), Err(result->Err_0))
            ==> result->Err_0 == RetryError::<S::Error>::Interrupted));
    }
}

} // verus!
