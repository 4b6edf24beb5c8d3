//! The two unit-of-work traits and the adapters that wrap a single value.

use std::borrow::Borrow;
use std::marker::PhantomData;
use vstd::prelude::*;
use vstd::std_specs::convert::FromSpecImpl;
use vstd::std_specs::convert::IntoSpec;
use vstd::std_specs::convert::TryIntoSpec;

verus! {

/// A unit of work that is driven through a shared reference.
///
/// `accepts` and `yields` are the unit's contract: `process` may be called on
/// every input that `accepts` admits, and every result it gives satisfies
/// `yields`. An implementation that leaves them out promises nothing and asks
/// for nothing.
pub trait Service {
    type Input;

    type Output;

    type Error;

    /// The inputs on which `process` may be called.
    open spec fn accepts(&self, input: Self::Input) -> bool {
        true
    }

    /// Whether `result` is a result that `process` may give for `input`.
    open spec fn yields(&self, input: Self::Input, result: Result<Self::Output, Self::Error>) -> bool {
        true
    }

    /// Process an input, producing a `Result<Self::Output, Self::Error>`.
    fn process(&self, input: Self::Input) -> (result: Result<Self::Output, Self::Error>)
        requires
            self.accepts(input),
        ensures
            self.yields(input, result),
    ;

    /// Convert this service into a [`ServiceMut`], which is a [`MutService`].
    fn into_mut(self) -> (wrapped: ServiceMut<Self>) where Self: Sized
        ensures
            wrapped.service == self,
    {
        ServiceMut { service: self }
    }
}

/// A unit of work that needs exclusive access while it processes an input.
///
/// `yields_mut` relates the unit before a call, the input, the unit after the
/// call and the result.
pub trait MutService {
    type Input;

    type Output;

    type Error;

    /// The inputs on which `process` may be called in this state.
    open spec fn accepts_mut(&self, input: Self::Input) -> bool {
        true
    }

    /// Whether `process`, called in this state on `input`, may leave the unit
    /// as `next` and give `result`.
    open spec fn yields_mut(
        &self,
        input: Self::Input,
        next: &Self,
        result: Result<Self::Output, Self::Error>,
    ) -> bool {
        true
    }

    /// Process an input, producing a `Result<Self::Output, Self::Error>`.
    fn process(&mut self, input: Self::Input) -> (result: Result<Self::Output, Self::Error>)
        requires
            old(self).accepts_mut(input),
        ensures
            old(self).yields_mut(input, final(self), result),
    ;
}

/// A [`MutService`] that wraps a [`Service`] and never changes.
pub struct ServiceMut<S: Service> {
    pub service: S,
}

impl<S: Service> ServiceMut<S> {
    pub fn new(service: S) -> (wrapped: Self)
        ensures
            wrapped.service == service,
    {
        Self { service }
    }
}

impl<S: Service> From<S> for ServiceMut<S> {
    fn from(service: S) -> (wrapped: Self) {
        Self { service }
    }
}

impl<S: Service> FromSpecImpl<S> for ServiceMut<S> {
    open spec fn obeys_from_spec() -> bool {
        true
    }

    open spec fn from_spec(service: S) -> Self {
        ServiceMut { service }
    }
}

impl<S: Service> MutService for ServiceMut<S> {
    type Input = S::Input;

    type Output = S::Output;

    type Error = S::Error;

    open spec fn accepts_mut(&self, input: Self::Input) -> bool {
        self.service.accepts(input)
    }

    open spec fn yields_mut(
        &self,
        input: Self::Input,
        next: &Self,
        result: Result<Self::Output, Self::Error>,
    ) -> bool {
        &&& *next == *self
        &&& self.service.yields(input, result)
    }

    fn process(&mut self, input: Self::Input) -> (result: Result<Self::Output, Self::Error>) {
        self.service.process(input)
    }
}

/// A [`Service`] that converts its input with [`Into`] and always succeeds.
pub struct IntoService<O, I: Into<O>> {
    pub marker: PhantomData<(O, I)>,
}

impl<O, I: Into<O>> IntoService<O, I> {
    pub fn new() -> Self {
        Self { marker: PhantomData }
    }
}

impl<O, I: Into<O>> Service for IntoService<O, I> {
    type Input = I;

    type Output = O;

    type Error = std::convert::Infallible;

    open spec fn accepts(&self, input: I) -> bool {
        true
    }

    /// Always `Ok`; the value is the conversion's, where `I` states one.
    open spec fn yields(&self, input: I, result: Result<O, std::convert::Infallible>) -> bool {
        &&& result is Ok
        &&& <I as IntoSpec<O>>::obeys_into_spec() ==> result->Ok_0 == input.into_spec()
    }

    fn process(&self, input: I) -> (result: Result<O, std::convert::Infallible>) {
        Ok(input.into())
    }
}

/// A [`Service`] that converts its input with [`TryInto`] and fails as the
/// conversion does.
pub struct TryIntoService<O, I: TryInto<O>> {
    pub marker: PhantomData<(O, I)>,
}

impl<O, I: TryInto<O>> TryIntoService<O, I> {
    pub fn new() -> Self {
        Self { marker: PhantomData }
    }
}

impl<O, E, I: TryInto<O, Error = E>> Service for TryIntoService<O, I> {
    type Input = I;

    type Output = O;

    type Error = E;

    open spec fn accepts(&self, input: I) -> bool {
        true
    }

    /// The conversion's own result, where `I` states one.
    open spec fn yields(&self, input: I, result: Result<O, E>) -> bool {
        <I as TryIntoSpec<O>>::obeys_try_into_spec() ==> result == input.try_into_spec()
    }

    fn process(&self, input: I) -> (result: Result<O, E>) {
        input.try_into()
    }
}

/// A unit that hands its input back as the output.
pub struct NoOpService<T> {
    pub marker: PhantomData<T>,
}

impl<T> NoOpService<T> {
    pub fn new() -> Self {
        Self { marker: PhantomData }
    }
}

impl<T> Service for NoOpService<T> {
    type Input = T;

    type Output = T;

    type Error = std::convert::Infallible;

    open spec fn accepts(&self, input: T) -> bool {
        true
    }

    open spec fn yields(&self, input: T, result: Result<T, std::convert::Infallible>) -> bool {
        result == Ok::<T, std::convert::Infallible>(input)
    }

    fn process(&self, input: T) -> (result: Result<T, std::convert::Infallible>) {
        Ok(input)
    }
}

impl<T> MutService for NoOpService<T> {
    type Input = T;

    type Output = T;

    type Error = std::convert::Infallible;

    open spec fn accepts_mut(&self, input: T) -> bool {
        true
    }

    open spec fn yields_mut(
        &self,
        input: T,
        next: &Self,
        result: Result<T, std::convert::Infallible>,
    ) -> bool {
        result == Ok::<T, std::convert::Infallible>(input)
    }

    fn process(&mut self, input: T) -> (result: Result<T, std::convert::Infallible>) {
        Ok(input)
    }
}

/// A [`Service`] that calls a function.
#[verifier::reject_recursive_types(I)]
#[verifier::reject_recursive_types(O)]
#[verifier::reject_recursive_types(E)]
pub struct FnService<I, O, E, F: Fn(I) -> Result<O, E>> {
    pub function: F,
    pub marker: PhantomData<(I, O, E)>,
}

impl<I, O, E, F: Fn(I) -> Result<O, E>> FnService<I, O, E, F> {
    pub fn new(function: F) -> (service: Self)
        ensures
            service.function == function,
    {
        Self { function, marker: PhantomData }
    }
}

impl<I, O, E, F: Fn(I) -> Result<O, E>> Service for FnService<I, O, E, F> {
    type Input = I;

    type Output = O;

    type Error = E;

    /// The function's own precondition.
    open spec fn accepts(&self, input: I) -> bool {
        self.function.requires((input,))
    }

    /// The function's own postcondition.
    open spec fn yields(&self, input: I, result: Result<O, E>) -> bool {
        self.function.ensures((input,), result)
    }

    fn process(&self, input: I) -> (result: Result<O, E>) {
        (self.function)(input)
    }
}

/// A [`MutService`] that calls a function. The function is called through a
/// shared reference, so the unit never changes.
#[verifier::reject_recursive_types(I)]
#[verifier::reject_recursive_types(O)]
#[verifier::reject_recursive_types(E)]
pub struct FnMutService<I, O, E, F: Fn(I) -> Result<O, E>> {
    pub function: F,
    pub marker: PhantomData<(I, O, E)>,
}

impl<I, O, E, F: Fn(I) -> Result<O, E>> FnMutService<I, O, E, F> {
    pub fn new(function: F) -> (service: Self)
        ensures
            service.function == function,
    {
        Self { function, marker: PhantomData }
    }
}

impl<I, O, E, F: Fn(I) -> Result<O, E>> MutService for FnMutService<I, O, E, F> {
    type Input = I;

    type Output = O;

    type Error = E;

    open spec fn accepts_mut(&self, input: I) -> bool {
        self.function.requires((input,))
    }

    open spec fn yields_mut(&self, input: I, next: &Self, result: Result<O, E>) -> bool {
        &&& next.function == self.function
        &&& self.function.ensures((input,), result)
    }

    fn process(&mut self, input: I) -> (result: Result<O, E>) {
        (self.function)(input)
    }
}

/// `Borrow::borrow` of `holder`. What it refers to is up to the holder's
/// impl of `Borrow`, so nothing is stated of it.
#[verifier::external_body]
fn borrowed<T, B: Borrow<T>>(holder: &B) -> (value: &T) {
    holder.borrow()
}

/// Whether `held` is what `holder` has lent by its impl of `Borrow`.
pub closed spec fn lends<T, B: Borrow<T>>(holder: &B, held: &T) -> bool {
    call_ensures(borrowed::<T, B>, (holder,), held)
}

/// A [`Service`] that clones what its input borrows.
pub struct CloneService<T: Clone, B: Borrow<T>> {
    pub marker: PhantomData<(T, B)>,
}

impl<T: Clone, B: Borrow<T>> CloneService<T, B> {
    pub fn new() -> Self {
        Self { marker: PhantomData }
    }
}

impl<T: Clone, B: Borrow<T>> Service for CloneService<T, B> {
    type Input = B;

    type Output = T;

    type Error = std::convert::Infallible;

    open spec fn accepts(&self, input: B) -> bool {
        true
    }

    /// Never a failure: `Ok` with a clone of what the input lends.
    open spec fn yields(&self, input: B, result: Result<T, std::convert::Infallible>) -> bool {
        &&& result is Ok
        &&& exists|held: &T| #[trigger] lends(&input, held) && cloned(*held, result->Ok_0)
    }

    fn process(&self, input: B) -> (result: Result<T, std::convert::Infallible>) {
        let held = borrowed(&input);
        let copy = held.clone();
        assert(lends(&input, held) && cloned(*held, copy));
        Ok(copy)
    }
}

} // verus!
