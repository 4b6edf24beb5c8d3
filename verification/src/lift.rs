//! Units lifted over a collection or an option: the wrapped unit is applied
//! to each item of a `Vec`, or to the value of an `Option` if there is one.

use crate::service::Service;
use vstd::prelude::*;

verus! {

/// A [`Service`] that applies the wrapped unit to each item of a `Vec`, in
/// order, and stops at the first item on which it fails.
pub struct IntoIterService<S: Service> {
    pub service: S,
}

impl<S: Service> IntoIterService<S> {
    pub fn new(service: S) -> (lifted: Self)
        ensures
            lifted.service == service,
    {
        Self { service }
    }
}

impl<S: Service> IntoIterService<S> {
    /// Whether the unit may succeed on `item`.
    pub open spec fn passes(&self, item: S::Input) -> bool {
        exists|output: S::Output| self.service.yields(item, Ok(output))
    }

    /// Whether the unit may succeed on every item before place `at` and fail
    /// with `err` on the item at that place.
    pub open spec fn stops_at(&self, items: Seq<S::Input>, at: int, err: S::Error) -> bool {
        &&& 0 <= at < items.len()
        &&& self.service.yields(items[at], Err(err))
        &&& forall|i: int| 0 <= i < at ==> #[trigger] self.passes(items[i])
    }
}

impl<T, S: Service<Input = T>> Service for IntoIterService<S> {
    type Input = Vec<T>;

    type Output = Vec<S::Output>;

    type Error = S::Error;

    /// The unit accepts every item.
    open spec fn accepts(&self, input: Vec<T>) -> bool {
        forall|i: int| 0 <= i < input.len() ==> self.service.accepts(#[trigger] input[i])
    }

    /// `Ok` with one output per item, each an output of the unit on the item
    /// at its place; `Err` with a failure of the unit on some item, all items
    /// before which the unit could process.
    open spec fn yields(&self, input: Vec<T>, result: Result<Vec<S::Output>, S::Error>) -> bool {
        if result is Ok {
            &&& result->Ok_0.len() == input.len()
            &&& forall|i: int|
                0 <= i < input.len() ==> self.service.yields(
                    #[trigger] input[i],
                    Ok(result->Ok_0[i]),
                )
        } else {
            exists|at: int| self.stops_at(input@, at, result->Err_0)
        }
    }

    fn process(&self, input: Vec<T>) -> (result: Result<Vec<S::Output>, S::Error>) {
        let mut output: Vec<S::Output> = Vec::with_capacity(input.len());
        let ghost items = input@;
        for item in iter: input.into_iter()
            invariant
                iter.seq() == items,
                items == input@,
                self.accepts(input),
                output.len() == iter.index(),
                forall|i: int|
                    0 <= i < output.len() ==> self.service.yields(#[trigger] items[i], Ok(output[i])),
        {
            let ghost at = iter.index();
            assert(item == items[at as int]);
            match self.service.process(item) {
                Ok(value) => output.push(value),
                Err(err) => {
                    assert forall|i: int| 0 <= i < at implies #[trigger] self.passes(
                        items[i],
                    ) by {
                        assert(self.service.yields(items[i], Ok(output[i])));
                    }
                    let ghost failed = Err::<Vec<S::Output>, S::Error>(err);
                    assert(self.stops_at(input@, at as int, failed->Err_0));
                    return Err(err);
                },
            }
        }
        Ok(output)
    }
}

/// A [`Service`] that applies the wrapped unit to the value of an `Option`
/// and passes `None` through.
pub struct MaybeProcessService<S: Service> {
    pub service: S,
}

impl<S: Service> MaybeProcessService<S> {
    pub fn new(service: S) -> (lifted: Self)
        ensures
            lifted.service == service,
    {
        Self { service }
    }
}

impl<T, S: Service<Input = T>> Service for MaybeProcessService<S> {
    type Input = Option<T>;

    type Output = Option<S::Output>;

    type Error = S::Error;

    open spec fn accepts(&self, input: Option<T>) -> bool {
        input is Some ==> self.service.accepts(input->Some_0)
    }

    /// `Ok(None)` for `None`, without a call of the unit; for `Some`, the
    /// unit's result on the value, an output again in `Some`.
    open spec fn yields(&self, input: Option<T>, result: Result<Option<S::Output>, S::Error>) -> bool {
        match input {
            None => result == Ok::<Option<S::Output>, S::Error>(None),
            Some(value) => match result {
                Ok(Some(output)) => self.service.yields(value, Ok(output)),
                Ok(None) => false,
                Err(err) => self.service.yields(value, Err(err)),
            },
        }
    }

    fn process(&self, input: Option<T>) -> (result: Result<Option<S::Output>, S::Error>) {
        match input {
            None => Ok(None),
            Some(value) => match self.service.process(value) {
                Ok(output) => Ok(Some(output)),
                Err(err) => Err(err),
            },
        }
    }
}

} // verus!
