//! Chains: units linked output to input into one unit, which stops at the
//! first link that fails.

use crate::dynamic::DynMutService;
use crate::dynamic::DynService;
use crate::fork::CloningForkService;
use crate::service::MutService;
use crate::service::NoOpService;
use crate::service::Service;
use crate::text::render;
use crate::text::renders;
use crate::text::write_text;
use std::fmt::Debug;
use std::fmt::Display;
use std::fmt::Formatter;
use vstd::prelude::*;

verus! {

/// The error of a chain: the failure of the link that stopped it.
#[derive(Debug)]
pub struct ServiceChainError<C: Debug> {
    pub cause: C,
}

impl<C: Debug> ServiceChainError<C> {
    pub fn new(cause: C) -> (error: Self)
        ensures
            error.cause == cause,
    {
        Self { cause }
    }

    /// The text under which this error is shown: `ServiceChainError`.
    pub fn message(&self) -> (text: &'static str)
        ensures
            text@ == "ServiceChainError"@,
    {
        "ServiceChainError"
    }
}

impl<C: Debug> Display for ServiceChainError<C> {
    fn fmt(&self, f: &mut Formatter<'_>) -> Result<(), std::fmt::Error> {
        write_text(f, self.message())
    }
}

impl<C: Debug> std::error::Error for ServiceChainError<C> {

}

/// The cause of a chain's error: the failure of a link, kept as the text of
/// its `Debug` rendering and shown as that text.
pub struct Cause {
    pub text: String,
}

impl Debug for Cause {
    fn fmt(&self, f: &mut Formatter<'_>) -> Result<(), std::fmt::Error> {
        write_text(f, self.text.as_str())
    }
}

/// The error that a link's failure becomes: its cause is the `Debug`
/// rendering of the failure, so that links with different error types give
/// one error type.
pub fn erase<E: Debug>(failure: &E) -> (error: ServiceChainError<Cause>)
    ensures
        renders(failure, error.cause.text),
{
    ServiceChainError::new(Cause { text: render(failure) })
}

/// A link appended to what comes before it. `prev` runs first and hands its
/// output to `service`; a chain of several units nests to the left, with a
/// [`NoOpService`] at its head.
pub struct ServiceChain<P, S> {
    pub prev: P,
    pub service: S,
}

impl<S: Service> ServiceChain<NoOpService<S::Input>, S> {
    /// Start a chain of [`Service`]s with `service` as its first link.
    pub fn start(service: S) -> (builder: ServiceChainBuilder<NoOpService<S::Input>, S>)
        ensures
            builder.chain.service == service,
    {
        ServiceChainBuilder::start(service)
    }
}

impl<S: MutService> ServiceChain<NoOpService<S::Input>, S> {
    /// Start a chain of [`MutService`]s with `service` as its first link.
    pub fn start_mut(service: S) -> (builder: MutServiceChainBuilder<NoOpService<S::Input>, S>)
        ensures
            builder.chain.service == service,
    {
        MutServiceChainBuilder::start(service)
    }
}

impl<P: Service, S: Service<Input = P::Output>> Service for ServiceChain<P, S> where
    P::Error: Debug,
    S::Error: Debug,
 {
    type Input = P::Input;

    type Output = S::Output;

    type Error = ServiceChainError<Cause>;

    /// `prev` accepts the input, and `service` accepts whatever `prev` may
    /// hand it.
    open spec fn accepts(&self, input: Self::Input) -> bool {
        &&& self.prev.accepts(input)
        &&& forall|mid: P::Output| #[trigger]
            self.prev.yields(input, Ok(mid)) ==> self.service.accepts(mid)
    }

    /// `Ok` with an output of `service` on an output of `prev`; `Err` where
    /// `prev` fails, or where `prev` succeeds and `service` fails on what it
    /// was handed. The cause of the error is the rendering of that failure.
    open spec fn yields(&self, input: Self::Input, result: Result<Self::Output, Self::Error>) -> bool {
        if result is Ok {
            exists|mid: P::Output| #[trigger]
                self.prev.yields(input, Ok(mid)) && self.service.yields(mid, Ok(result->Ok_0))
        } else {
            ||| exists|failure: P::Error| #[trigger]
                self.prev.yields(input, Err(failure)) && renders(
                    &failure,
                    result->Err_0.cause.text,
                )
            ||| exists|mid: P::Output, failure: S::Error| #[trigger]
                self.prev.yields(input, Ok(mid)) && #[trigger] self.service.yields(
                    mid,
                    Err(failure),
                ) && renders(&failure, result->Err_0.cause.text)
        }
    }

    fn process(&self, input: Self::Input) -> (result: Result<Self::Output, Self::Error>) {
        let mid = match self.prev.process(input) {
            Ok(mid) => mid,
            Err(failure) => return Err(erase(&failure)),
        };
        match self.service.process(mid) {
            Ok(output) => Ok(output),
            Err(failure) => Err(erase(&failure)),
        }
    }
}

impl<P: MutService, S: MutService<Input = P::Output>> MutService for ServiceChain<P, S> where
    P::Error: Debug,
    S::Error: Debug,
 {
    type Input = P::Input;

    type Output = S::Output;

    type Error = ServiceChainError<Cause>;

    /// `prev` accepts the input, and `service` accepts whatever `prev` may
    /// hand it.
    open spec fn accepts_mut(&self, input: Self::Input) -> bool {
        &&& self.prev.accepts_mut(input)
        &&& forall|after: P, mid: P::Output| #[trigger]
            self.prev.yields_mut(input, &after, Ok(mid)) ==> self.service.accepts_mut(mid)
    }

    /// `Ok` with an output of `service` on an output of `prev`; `Err` where
    /// `prev` fails, and then `service` is left as it was, or where `prev`
    /// succeeds and `service` fails on what it was handed. The cause of the
    /// error is the rendering of that failure.
    open spec fn yields_mut(
        &self,
        input: Self::Input,
        next: &Self,
        result: Result<Self::Output, Self::Error>,
    ) -> bool {
        if result is Ok {
            exists|mid: P::Output| #[trigger]
                self.prev.yields_mut(input, &next.prev, Ok(mid)) && self.service.yields_mut(
                    mid,
                    &next.service,
                    Ok(result->Ok_0),
                )
        } else {
            ||| next.service == self.service && exists|failure: P::Error| #[trigger]
                self.prev.yields_mut(input, &next.prev, Err(failure)) && renders(
                    &failure,
                    result->Err_0.cause.text,
                )
            ||| exists|mid: P::Output, failure: S::Error| #[trigger]
                self.prev.yields_mut(input, &next.prev, Ok(mid)) && #[trigger]
                    self.service.yields_mut(mid, &next.service, Err(failure)) && renders(
                    &failure,
                    result->Err_0.cause.text,
                )
        }
    }

    fn process(&mut self, input: Self::Input) -> (result: Result<Self::Output, Self::Error>) {
        let ghost before = *self;
        let mid = match self.prev.process(input) {
            Ok(mid) => mid,
            Err(failure) => {
                assert(before.prev.yields_mut(input, &self.prev, Err(failure)));
                assert(self.service == before.service);
                return Err(erase(&failure));
            },
        };
        assert(before.prev.yields_mut(input, &self.prev, Ok(mid)));
        let ghost handed = mid;
        let outcome = self.service.process(mid);
        assert(before.prev.yields_mut(input, &self.prev, Ok(handed)));
        assert(before.service.yields_mut(handed, &self.service, outcome));
        match outcome {
            Ok(output) => Ok(output),
            Err(failure) => Err(erase(&failure)),
        }
    }
}

/// Builds a chain of [`Service`]s: `next` appends a link, `end` gives the
/// chain.
pub struct ServiceChainBuilder<P: Service, S: Service<Input = P::Output>> {
    pub chain: ServiceChain<P, S>,
}

impl<S: Service> ServiceChainBuilder<NoOpService<S::Input>, S> {
    /// A builder whose chain is `service` alone.
    pub fn start(service: S) -> (builder: Self)
        ensures
            builder.chain.service == service,
    {
        ServiceChainBuilder { chain: ServiceChain { prev: NoOpService::new(), service } }
    }
}

impl<P: Service, S: Service<Input = P::Output>> ServiceChainBuilder<P, S> where
    P::Error: Debug,
    S::Error: Debug,
 {
    /// Append `service` to the end of the chain.
    pub fn next<NS: Service<Input = S::Output>>(self, service: NS) -> (builder: ServiceChainBuilder<
        ServiceChain<P, S>,
        NS,
    >)
        ensures
            builder.chain.prev == self.chain,
            builder.chain.service == service,
    {
        ServiceChainBuilder { chain: ServiceChain { prev: self.chain, service } }
    }

    /// Append a fork to the end of the chain: the chain's output goes, once
    /// cloned, to `first` and to `second`.
    pub fn fork_clone<NS1: Service<Input = S::Output>, NS2: Service<
        Input = S::Output,
        Error = NS1::Error,
    >>(self, first: NS1, second: NS2) -> (builder: ServiceChainBuilder<
        ServiceChain<P, S>,
        CloningForkService<NS1, NS2>,
    >) where S::Output: Clone
        ensures
            builder.chain.prev == self.chain,
            builder.chain.service.first == first,
            builder.chain.service.second == second,
    {
        ServiceChainBuilder {
            chain: ServiceChain { prev: self.chain, service: CloningForkService::new(first, second) },
        }
    }

    /// The chain that was built.
    pub fn end(self) -> (chain: ServiceChain<P, S>)
        ensures
            chain == self.chain,
    {
        self.chain
    }

    /// The chain that was built, behind a [`DynService`] that hides its
    /// type.
    pub fn end_dyn<'a>(self) -> (boxed: DynService<
        'a,
        P::Input,
        S::Output,
        ServiceChainError<Cause>,
    >) where P: 'a, S: 'a
        ensures
            forall|input: P::Input| #[trigger]
                boxed.accepts(input) <==> self.chain.accepts(input),
            forall|input: P::Input, result: Result<S::Output, ServiceChainError<Cause>>|
                #[trigger] boxed.yields(input, result) <==> self.chain.yields(input, result),
    {
        DynService::new(self.chain)
    }
}

/// Builds a chain of [`MutService`]s: `next` appends a link, `end` gives the
/// chain.
pub struct MutServiceChainBuilder<P: MutService, S: MutService<Input = P::Output>> {
    pub chain: ServiceChain<P, S>,
}

impl<S: MutService> MutServiceChainBuilder<NoOpService<S::Input>, S> {
    /// A builder whose chain is `service` alone.
    pub fn start(service: S) -> (builder: Self)
        ensures
            builder.chain.service == service,
    {
        MutServiceChainBuilder { chain: ServiceChain { prev: NoOpService::new(), service } }
    }
}

impl<P: MutService, S: MutService<Input = P::Output>> MutServiceChainBuilder<P, S> where
    P::Error: Debug,
    S::Error: Debug,
 {
    /// Append `service` to the end of the chain.
    pub fn next<NS: MutService<Input = S::Output>>(self, service: NS) -> (builder:
        MutServiceChainBuilder<ServiceChain<P, S>, NS>)
        ensures
            builder.chain.prev == self.chain,
            builder.chain.service == service,
    {
        MutServiceChainBuilder { chain: ServiceChain { prev: self.chain, service } }
    }

    /// Append a fork to the end of the chain: the chain's output goes, once
    /// cloned, to `first` and to `second`.
    pub fn fork_clone<NS1: MutService<Input = S::Output>, NS2: MutService<
        Input = S::Output,
        Error = NS1::Error,
    >>(self, first: NS1, second: NS2) -> (builder: MutServiceChainBuilder<
        ServiceChain<P, S>,
        CloningForkService<NS1, NS2>,
    >) where S::Output: Clone
        ensures
            builder.chain.prev == self.chain,
            builder.chain.service.first == first,
            builder.chain.service.second == second,
    {
        MutServiceChainBuilder {
            chain: ServiceChain { prev: self.chain, service: CloningForkService::new(first, second) },
        }
    }

    /// The chain that was built.
    pub fn end(self) -> (chain: ServiceChain<P, S>)
        ensures
            chain == self.chain,
    {
        self.chain
    }

    /// The chain that was built, behind a [`DynMutService`] that hides its
    /// type.
    pub fn end_dyn<'a>(self) -> (boxed: DynMutService<
        'a,
        P::Input,
        S::Output,
        ServiceChainError<Cause>,
    >) where P: 'a, S: 'a
        ensures
            forall|input: P::Input| #[trigger]
                boxed.accepts_mut(input) <==> self.chain.accepts_mut(input),
            forall|
                input: P::Input,
                next: DynMutService<'a, P::Input, S::Output, ServiceChainError<Cause>>,
                result: Result<S::Output, ServiceChainError<Cause>>,
            | #[trigger]
                boxed.yields_mut(input, &next, result) <==> exists|after: ServiceChain<P, S>|
                    self.chain.yields_mut(input, &after, result),
    {
        DynMutService::new(self.chain)
    }
}

/// A chain stops at the first link that fails: where what comes before the
/// last link cannot succeed on an input, the chain fails on it and the last
/// link is left as it was.
pub proof fn lemma_chain_stops_at_failure<P, S>(
    chain: ServiceChain<P, S>,
    input: P::Input,
    next: ServiceChain<P, S>,
    result: Result<S::Output, ServiceChainError<Cause>>,
) where P: MutService, S: MutService<Input = P::Output>, P::Error: Debug, S::Error: Debug
    requires
        forall|after: P, mid: P::Output| !chain.prev.yields_mut(input, &after, Ok(mid)),
        chain.yields_mut(input, &next, result),
    ensures
        result is Err,
        next.service == chain.service,
{
}

/// The same one link further: where the head of a chain cannot succeed on an
/// input, the two links after it are both left as they were.
pub proof fn lemma_chain_stops_before_later_links<P, A, B>(
    chain: ServiceChain<ServiceChain<P, A>, B>,
    input: P::Input,
    next: ServiceChain<ServiceChain<P, A>, B>,
    result: Result<B::Output, ServiceChainError<Cause>>,
) where
    P: MutService,
    A: MutService<Input = P::Output>,
    B: MutService<Input = A::Output>,
    P::Error: Debug,
    A::Error: Debug,
    B::Error: Debug,

    requires
        forall|after: P, mid: P::Output| !chain.prev.prev.yields_mut(input, &after, Ok(mid)),
        chain.yields_mut(input, &next, result),
    ensures
        result is Err,
        next.prev.service == chain.prev.service,
        next.service == chain.service,
{
    assert forall|after: ServiceChain<P, A>, mid: A::Output|
        !chain.prev.yields_mut(input, &after, Ok(mid)) by {
        if chain.prev.yields_mut(input, &after, Ok(mid)) {
            lemma_chain_stops_at_failure(chain.prev, input, after, Ok(mid));
        }
    }
    lemma_chain_stops_at_failure(chain, input, next, result);
    let failure = choose|failure: ServiceChainError<Cause>| #[trigger]
        chain.prev.yields_mut(input, &next.prev, Err(failure));
    lemma_chain_stops_at_failure(chain.prev, input, next.prev, Err(failure));
}

/// A chain whose links all succeed gives the last link's output on what the
/// links before it gave, and a chain fails only where one of its links does.
pub proof fn lemma_chain_fails_only_with_a_link<P, S>(
    chain: ServiceChain<P, S>,
    input: P::Input,
    result: Result<S::Output, ServiceChainError<Cause>>,
) where P: Service, S: Service<Input = P::Output>, P::Error: Debug, S::Error: Debug
    requires
        forall|failure: P::Error| !chain.prev.yields(input, Err(failure)),
        forall|mid: P::Output, failure: S::Error| !chain.service.yields(mid, Err(failure)),
        chain.yields(input, result),
    ensures
        result is Ok,
{
}

} // verus!
