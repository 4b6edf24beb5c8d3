//! Polling a source: driving a unit that answers `Ok(None)` while it has
//! nothing to give, until it gives a value, fails or is interrupted.

use crate::retry::idles_always;
use crate::retry::RetryError;
use crate::service::MutService;
use crate::service::Service;
use vstd::prelude::*;

verus! {

/// What a poll does after one answer of its source.
pub enum PollStep<O, E> {
    /// The source gave a value: the poll ends with it.
    Ready(O),
    /// The source failed: the poll ends with this error.
    Failed(RetryError<E>),
    /// The source had nothing: idle, then ask again.
    Idle,
}

/// The decision after one answer of the source. Only `Ok(None)` keeps the
/// poll going; a failure of the source ends it at once.
pub fn poll_step<O, E>(answer: Result<Option<O>, E>) -> (step: PollStep<O, E>)
    ensures
        step == match answer {
            Ok(Some(value)) => PollStep::<O, E>::Ready(value),
            Ok(None) => PollStep::<O, E>::Idle,
            Err(err) => PollStep::<O, E>::Failed(RetryError::ServiceError(err)),
        },
{
    match answer {
        Ok(Some(value)) => PollStep::Ready(value),
        Ok(None) => PollStep::Idle,
        Err(err) => PollStep::Failed(RetryError::ServiceError(err)),
    }
}

/// Whether a poll of `service` that has idled `attempt` times so far may end
/// in `result` after idling `idles` times more.
///
/// The attempt number is what the idle strategy is handed; the poll gives up
/// as interrupted rather than count past `usize::MAX`.
pub open spec fn poll_run<O, S, F>(
    service: S,
    idle: F,
    attempt: usize,
    idles: int,
    result: Result<O, RetryError<S::Error>>,
) -> bool where
    S: Service<Input = (), Output = Option<O>>,
    F: Fn(usize) -> Result<(), RetryError<S::Error>>,
 
    decreases usize::MAX - attempt, 1int,
{
    &&& idles >= 0
    &&& {
        ||| idles == 0 && result is Ok && service.yields((), Ok(Some(result->Ok_0)))
        ||| idles == 0 && result is Err && result->Err_0 is ServiceError && service.yields(
            (),
            Err(result->Err_0->ServiceError_0),
        )
        ||| service.yields((), Ok(None)) && poll_after(service, idle, attempt, idles - 1, result)
    }
}

/// Whether a poll whose source has just had nothing, for the time number
/// `attempt`, may end in `result` after idling `more` times beyond the idling
/// that is due now.
pub open spec fn poll_after<O, S, F>(
    service: S,
    idle: F,
    attempt: usize,
    more: int,
    result: Result<O, RetryError<S::Error>>,
) -> bool where
    S: Service<Input = (), Output = Option<O>>,
    F: Fn(usize) -> Result<(), RetryError<S::Error>>,
 
    decreases usize::MAX - attempt, 0int,
{
    ||| more == 0 && result is Err && idle.ensures((attempt,), Err(result->Err_0))
    ||| idle.ensures((attempt,), Ok(())) && if attempt < usize::MAX {
        poll_run(service, idle, (attempt + 1) as usize, more, result)
    } else {
        more == 0 && result == Err::<O, RetryError<S::Error>>(RetryError::Interrupted)
    }
}

/// Whether a poll of an exclusive source in state `service` that has idled
/// `attempt` times so far may leave it as `last` and end in `result` after
/// idling `idles` times more.
pub open spec fn poll_run_mut<O, S, F>(
    service: S,
    idle: F,
    attempt: usize,
    idles: int,
    last: S,
    result: Result<O, RetryError<S::Error>>,
) -> bool where
    S: MutService<Input = (), Output = Option<O>>,
    F: Fn(usize) -> Result<(), RetryError<S::Error>>,
 
    decreases usize::MAX - attempt, 1int,
{
    &&& idles >= 0
    &&& {
        ||| idles == 0 && result is Ok && service.yields_mut((), &last, Ok(Some(result->Ok_0)))
        ||| idles == 0 && result is Err && result->Err_0 is ServiceError && service.yields_mut(
            (),
            &last,
            Err(result->Err_0->ServiceError_0),
        )
        ||| exists|empty: S| #[trigger]
            service.yields_mut((), &empty, Ok(None)) && poll_after_mut(
                empty,
                idle,
                attempt,
                idles - 1,
                last,
                result,
            )
    }
}

/// Whether a poll whose source has just had nothing, for the time number
/// `attempt`, and is now in state `empty` may leave it as `last` and end in
/// `result` after idling `more` times beyond the idling that is due now.
pub open spec fn poll_after_mut<O, S, F>(
    empty: S,
    idle: F,
    attempt: usize,
    more: int,
    last: S,
    result: Result<O, RetryError<S::Error>>,
) -> bool where
    S: MutService<Input = (), Output = Option<O>>,
    F: Fn(usize) -> Result<(), RetryError<S::Error>>,
 
    decreases usize::MAX - attempt, 0int,
{
    ||| more == 0 && last == empty && result is Err && idle.ensures(
        (attempt,),
        Err(result->Err_0),
    )
    ||| idle.ensures((attempt,), Ok(())) && if attempt < usize::MAX {
        poll_run_mut(empty, idle, (attempt + 1) as usize, more, last, result)
    } else {
        more == 0 && last == empty && result == Err::<O, RetryError<S::Error>>(
            RetryError::Interrupted,
        )
    }
}

/// Whether an exclusive source that had nothing when it could be asked can
/// be asked again.
pub open spec fn accepts_again<O, S>() -> bool where S: MutService<Input = (), Output = Option<O>> {
    forall|before: S, empty: S|
        before.accepts_mut(()) && #[trigger] before.yields_mut((), &empty, Ok(None))
            ==> empty.accepts_mut(())
}

/// A unit that polls a source until it gives a value.
///
/// Each time the source answers `Ok(None)`, the idle strategy is called with
/// the number of times the source has had nothing so far; the poll goes on
/// while it answers `Ok`.
#[verifier::reject_recursive_types(E)]
pub struct PollService<E, S, F> where F: Fn(usize) -> Result<(), RetryError<E>> {
    pub service: S,
    pub idle: F,
}

impl<E, S, F> PollService<E, S, F> where F: Fn(usize) -> Result<(), RetryError<E>> {
    pub fn new(service: S, idle: F) -> (poll: Self)
        ensures
            poll.service == service,
            poll.idle == idle,
    {
        Self { service, idle }
    }
}

impl<O, E, S, F> Service for PollService<E, S, F> where
    S: Service<Input = (), Output = Option<O>, Error = E>,
    F: Fn(usize) -> Result<(), RetryError<E>>,
 {
    type Input = ();

    type Output = O;

    type Error = RetryError<E>;

    open spec fn accepts(&self, input: ()) -> bool {
        &&& self.service.accepts(())
        &&& idles_always(self.idle)
    }

    /// Some run of the poll from attempt number 0 ends in `result`.
    open spec fn yields(&self, input: (), result: Result<O, RetryError<E>>) -> bool {
        exists|idles: int| poll_run(self.service, self.idle, 0, idles, result)
    }

    fn process(&self, input: ()) -> (result: Result<O, RetryError<E>>) {
        let mut attempt: usize = 0;
        loop
            invariant
                self.accepts(()),
                forall|idles: int, end: Result<O, RetryError<E>>|
                    #[trigger] poll_run(self.service, self.idle, attempt, idles, end) ==> poll_run(
                        self.service,
                        self.idle,
                        0,
                        idles + attempt,
                        end,
                    ),
            decreases usize::MAX - attempt,
        {
            match poll_step(self.service.process(())) {
                PollStep::Ready(value) => {
                    assert(poll_run(self.service, self.idle, attempt, 0, Ok(value)));
                    return Ok(value);
                },
                PollStep::Failed(stop) => {
                    assert(poll_run(self.service, self.idle, attempt, 0, Err(stop)));
                    return Err(stop);
                },
                PollStep::Idle => {
                    let idled = (self.idle)(attempt);
                    assert(idled is Ok ==> idled->Ok_0 =~= ());
                    if let Err(stop) = idled {
                        assert(poll_after(self.service, self.idle, attempt, 0, Err(stop)));
                        assert(poll_run(self.service, self.idle, attempt, 1, Err(stop)));
                        return Err(stop);
                    }
                    if attempt == usize::MAX {
                        let stop = RetryError::Interrupted;
                        assert(poll_after(self.service, self.idle, attempt, 0, Err(stop)));
                        assert(poll_run(self.service, self.idle, attempt, 1, Err(stop)));
                        return Err(stop);
                    }
                    assert forall|idles: int, end: Result<O, RetryError<E>>| #[trigger]
                        poll_run(
                            self.service,
                            self.idle,
                            (attempt + 1) as usize,
                            idles,
                            end,
                        ) implies poll_run(self.service, self.idle, 0, idles + attempt + 1, end) by {
                        assert(poll_after(self.service, self.idle, attempt, idles, end));
                        assert(poll_run(self.service, self.idle, attempt, idles + 1, end));
                    }
                    attempt += 1;
                },
            }
        }
    }
}

impl<O, E, S, F> MutService for PollService<E, S, F> where
    S: MutService<Input = (), Output = Option<O>, Error = E>,
    F: Fn(usize) -> Result<(), RetryError<E>>,
 {
    type Input = ();

    type Output = O;

    type Error = RetryError<E>;

    /// The source may be asked now and again whenever it has just had
    /// nothing; the idle strategy may be called on every attempt number.
    open spec fn accepts_mut(&self, input: ()) -> bool {
        &&& self.service.accepts_mut(())
        &&& idles_always(self.idle)
        &&& accepts_again::<O, S>()
    }

    /// Some run of the poll from attempt number 0 leaves the source as `next`
    /// holds it and ends in `result`; the idle strategy stays.
    open spec fn yields_mut(&self, input: (), next: &Self, result: Result<O, RetryError<E>>) -> bool {
        &&& next.idle == self.idle
        &&& exists|idles: int|
            poll_run_mut(self.service, self.idle, 0, idles, next.service, result)
    }

    fn process(&mut self, input: ()) -> (result: Result<O, RetryError<E>>) {
        let mut attempt: usize = 0;
        loop
            invariant
                old(self).accepts_mut(()),
                self.idle == old(self).idle,
                self.service.accepts_mut(()),
                forall|idles: int, last: S, end: Result<O, RetryError<E>>|
                    #[trigger] poll_run_mut(self.service, self.idle, attempt, idles, last, end)
                        ==> poll_run_mut(
                        old(self).service,
                        self.idle,
                        0,
                        idles + attempt,
                        last,
                        end,
                    ),
            decreases usize::MAX - attempt,
        {
            let ghost before = self.service;
            match poll_step(self.service.process(())) {
                PollStep::Ready(value) => {
                    assert(poll_run_mut(before, self.idle, attempt, 0, self.service, Ok(value)));
                    return Ok(value);
                },
                PollStep::Failed(stop) => {
                    assert(poll_run_mut(before, self.idle, attempt, 0, self.service, Err(stop)));
                    return Err(stop);
                },
                PollStep::Idle => {
                    let idled = (self.idle)(attempt);
                    assert(idled is Ok ==> idled->Ok_0 =~= ());
                    if let Err(stop) = idled {
                        assert(poll_after_mut(
                            self.service,
                            self.idle,
                            attempt,
                            0,
                            self.service,
                            Err(stop),
                        ));
                        assert(poll_run_mut(before, self.idle, attempt, 1, self.service, Err(stop)));
                        return Err(stop);
                    }
                    if attempt == usize::MAX {
                        let stop = RetryError::Interrupted;
                        assert(poll_after_mut(
                            self.service,
                            self.idle,
                            attempt,
                            0,
                            self.service,
                            Err(stop),
                        ));
                        assert(poll_run_mut(before, self.idle, attempt, 1, self.service, Err(stop)));
                        return Err(stop);
                    }
                    assert forall|idles: int, last: S, end: Result<O, RetryError<E>>| #[trigger]
                        poll_run_mut(
                            self.service,
                            self.idle,
                            (attempt + 1) as usize,
                            idles,
                            last,
                            end,
                        ) implies poll_run_mut(
                        old(self).service,
                        self.idle,
                        0,
                        idles + attempt + 1,
                        last,
                        end,
                    ) by {
                        assert(poll_after_mut(self.service, self.idle, attempt, idles, last, end));
                        assert(poll_run_mut(before, self.idle, attempt, idles + 1, last, end));
                    }
                    attempt += 1;
                },
            }
        }
    }
}

/// Whether an exclusive source in state `source` has nothing exactly
/// `empties` times and then gives `value`, whatever course it takes.
pub open spec fn gives_after<O, S>(source: S, empties: nat, value: O) -> bool where
    S: MutService<Input = (), Output = Option<O>>,

    decreases empties,
{
    forall|next: S, answer: Result<Option<O>, S::Error>| #[trigger]
        source.yields_mut((), &next, answer) ==> if empties == 0 {
            answer == Ok::<Option<O>, S::Error>(Some(value))
        } else {
            answer == Ok::<Option<O>, S::Error>(None) && gives_after(
                next,
                (empties - 1) as nat,
                value,
            )
        }
}

/// A poll of a source that has nothing exactly `empties` times and then
/// gives `value`, under an idle strategy that never stops, idles exactly
/// `empties` times and ends in `value`.
pub proof fn lemma_poll_idles_once_per_empty<O, S, F>(
    source: S,
    idle: F,
    attempt: usize,
    empties: nat,
    value: O,
    idles: int,
    last: S,
    result: Result<O, RetryError<S::Error>>,
) where
    S: MutService<Input = (), Output = Option<O>>,
    F: Fn(usize) -> Result<(), RetryError<S::Error>>,

    requires
        gives_after(source, empties, value),
        forall|at: usize, answer: Result<(), RetryError<S::Error>>|
            idle.ensures((at,), answer) ==> answer is Ok,
        attempt + empties <= usize::MAX,
        poll_run_mut(source, idle, attempt, idles, last, result),
    ensures
        result == Ok::<O, RetryError<S::Error>>(value),
        idles == empties,
    decreases empties,
{
    if idles == 0 && result is Ok && source.yields_mut((), &last, Ok(Some(result->Ok_0))) {
    } else if idles == 0 && result is Err && result->Err_0 is ServiceError && source.yields_mut(
        (),
        &last,
        Err(result->Err_0->ServiceError_0),
    ) {
    } else {
        let empty = choose|empty: S| #[trigger]
            source.yields_mut((), &empty, Ok(None)) && poll_after_mut(
                empty,
                idle,
                attempt,
                idles - 1,
                last,
                result,
            );
        assert(empties > 0);
        assert(gives_after(empty, (empties - 1) as nat, value));
        assert(!idle.ensures((attempt,), Err(result->Err_0)));
        lemma_poll_idles_once_per_empty(
            empty,
            idle,
            (attempt + 1) as usize,
            (empties - 1) as nat,
            value,
            idles - 1,
            last,
            result,
        );
    }
}

/// A poll ends in a value only if the source gave it, and in a failure of
/// the source only if the source failed so.
pub proof fn lemma_poll_result_is_sources<O, S, F>(
    source: S,
    idle: F,
    attempt: usize,
    idles: int,
    result: Result<O, RetryError<S::Error>>,
) where S: Service<Input = (), Output = Option<O>>, F: Fn(usize) -> Result<(), RetryError<S::Error>>
    requires
        forall|at: usize, answer: Result<(), RetryError<S::Error>>|
            idle.ensures((at,), answer) ==> answer is Ok,
        attempt + idles < usize::MAX,
        poll_run(source, idle, attempt, idles, result),
    ensures
        result is Ok ==> source.yields((), Ok(Some(result->Ok_0))),
        result is Err ==> result->Err_0 is ServiceError && source.yields(
            (),
            Err(result->Err_0->ServiceError_0),
        ),
    decreases usize::MAX - attempt,
{
    if idles > 0 {
        assert(!idle.ensures((attempt,), Err(result->Err_0)));
        assert(poll_after(source, idle, attempt, idles - 1, result));
        lemma_poll_result_is_sources(source, idle, (attempt + 1) as usize, idles - 1, result);
    } else {
        assert(!poll_run(source, idle, (attempt + 1) as usize, -1, result));
        assert(!poll_after(source, idle, attempt, -1, result));
    }
}

/// Under an idle strategy that always answers `Interrupted`, a poll asks the
/// source once: it ends in the source's value, in the source's failure, or,
/// where the source had nothing, in `Interrupted` after a single idling.
pub proof fn lemma_poll_interrupted_when_empty<O, S, F>(
    source: S,
    idle: F,
    attempt: usize,
    idles: int,
    result: Result<O, RetryError<S::Error>>,
) where S: Service<Input = (), Output = Option<O>>, F: Fn(usize) -> Result<(), RetryError<S::Error>>
    requires
        forall|at: usize, answer: Result<(), RetryError<S::Error>>|
            idle.ensures((at,), answer) ==> answer == Err::<(), RetryError<S::Error>>(
                RetryError::Interrupted,
            ),
        poll_run(source, idle, attempt, idles, result),
    ensures
        idles <= 1,
        idles == 1 ==> source.yields((), Ok(None)) && result == Err::<O, RetryError<S::Error>>(
            RetryError::Interrupted,
        ),
        idles == 0 && result is Ok ==> source.yields((), Ok(Some(result->Ok_0))),
{
    if source.yields((), Ok(None)) && poll_after(source, idle, attempt, idles - 1, result) {
        assert(!idle.ensures((attempt,), Ok(())));
        assert(result is Err ==> (idle.ensures((attempt,), Err(result->Err_0))
            ==> result->Err_0 == RetryError::<S::Error>::Interrupted));
    }
}

} // verus!
