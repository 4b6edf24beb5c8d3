//! A unit behind a `Box<dyn ..>`, for passing a unit with a long type under
//! a short one.

use crate::service::MutService;
use crate::service::Service;
use vstd::prelude::*;

verus! {

/// What a boxed unit keeps of a [`Service`]: its contract and its call, over
/// the three types alone.
pub trait ErasedService<I, O, E> {
    spec fn erased_accepts(&self, input: I) -> bool;

    spec fn erased_yields(&self, input: I, result: Result<O, E>) -> bool;

    fn erased_process(&self, input: I) -> (result: Result<O, E>)
        requires
            self.erased_accepts(input),
        ensures
            self.erased_yields(input, result),
    ;
}

impl<S: Service> ErasedService<S::Input, S::Output, S::Error> for S {
    open spec fn erased_accepts(&self, input: S::Input) -> bool {
        self.accepts(input)
    }

    open spec fn erased_yields(&self, input: S::Input, result: Result<S::Output, S::Error>) -> bool {
        self.yields(input, result)
    }

    fn erased_process(&self, input: S::Input) -> (result: Result<S::Output, S::Error>) {
        self.process(input)
    }
}

/// A [`Service`] that holds another behind a `Box<dyn ..>` and behaves as it
/// does.
#[verifier::reject_recursive_types(I)]
#[verifier::reject_recursive_types(O)]
#[verifier::reject_recursive_types(E)]
pub struct DynService<'a, I, O, E> {
    pub service: Box<dyn ErasedService<I, O, E> + 'a>,
}

impl<'a, I, O, E> DynService<'a, I, O, E> {
    /// Box `service`. The boxed unit accepts what `service` accepts and
    /// yields what `service` yields.
    pub fn new<S: Service<Input = I, Output = O, Error = E> + 'a>(service: S) -> (boxed: Self)
        ensures
            forall|input: I| #[trigger] boxed.accepts(input) <==> service.accepts(input),
            forall|input: I, result: Result<O, E>| #[trigger]
                boxed.yields(input, result) <==> service.yields(input, result),
    {
        Self { service: Box::new(service) }
    }
}

impl<'a, I, O, E> Service for DynService<'a, I, O, E> {
    type Input = I;

    type Output = O;

    type Error = E;

    open spec fn accepts(&self, input: I) -> bool {
        self.service.erased_accepts(input)
    }

    open spec fn yields(&self, input: I, result: Result<O, E>) -> bool {
        self.service.erased_yields(input, result)
    }

    fn process(&self, input: I) -> (result: Result<O, E>) {
        self.service.erased_process(input)
    }
}

/// What a boxed unit keeps of a [`MutService`]: its contract and its call,
/// over the three types alone. The state that a call leaves is behind the
/// box, so the contract speaks of the result only.
pub trait ErasedMutService<I, O, E> {
    spec fn erased_accepts_mut(&self, input: I) -> bool;

    spec fn erased_yields_mut(&self, input: I, result: Result<O, E>) -> bool;

    fn erased_process_mut(&mut self, input: I) -> (result: Result<O, E>)
        requires
            old(self).erased_accepts_mut(input),
        ensures
            old(self).erased_yields_mut(input, result),
    ;
}

impl<S: MutService> ErasedMutService<S::Input, S::Output, S::Error> for S {
    open spec fn erased_accepts_mut(&self, input: S::Input) -> bool {
        self.accepts_mut(input)
    }

    open spec fn erased_yields_mut(&self, input: S::Input, result: Result<S::Output, S::Error>) -> bool {
        exists|next: S| self.yields_mut(input, &next, result)
    }

    fn erased_process_mut(&mut self, input: S::Input) -> (result: Result<S::Output, S::Error>) {
        self.process(input)
    }
}

/// A [`MutService`] that holds another behind a `Box<dyn ..>`.
#[verifier::reject_recursive_types(I)]
#[verifier::reject_recursive_types(O)]
#[verifier::reject_recursive_types(E)]
pub struct DynMutService<'a, I, O, E> {
    pub service: Box<dyn ErasedMutService<I, O, E> + 'a>,
}

impl<'a, I, O, E> DynMutService<'a, I, O, E> {
    /// Box `service`. The boxed unit accepts what `service` accepts in its
    /// present state, and yields the results that `service` yields from it.
    pub fn new<S: MutService<Input = I, Output = O, Error = E> + 'a>(service: S) -> (boxed: Self)
        ensures
            forall|input: I| #[trigger] boxed.accepts_mut(input) <==> service.accepts_mut(input),
            forall|input: I, next: Self, result: Result<O, E>| #[trigger]
                boxed.yields_mut(input, &next, result) <==> exists|after: S|
                    service.yields_mut(input, &after, result),
    {
        Self { service: Box::new(service) }
    }
}

impl<'a, I, O, E> MutService for DynMutService<'a, I, O, E> {
    type Input = I;

    type Output = O;

    type Error = E;

    open spec fn accepts_mut(&self, input: I) -> bool {
        self.service.erased_accepts_mut(input)
    }

    /// A result that the boxed unit yields from its present state.
    open spec fn yields_mut(&self, input: I, next: &Self, result: Result<O, E>) -> bool {
        self.service.erased_yields_mut(input, result)
    }

    fn process(&mut self, input: I) -> (result: Result<O, E>) {
        self.service.erased_process_mut(input)
    }
}

} // verus!
