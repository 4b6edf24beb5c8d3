//! Forks: one input handed to two sibling units, whose outputs come back as
//! a pair. The first unit runs first; the second runs only if the first
//! succeeded.

use crate::service::MutService;
use crate::service::Service;
use std::marker::PhantomData;
use vstd::prelude::*;

verus! {

/// A fork that hands a clone of the input to the first unit and the input
/// itself to the second.
pub struct CloningForkService<S1, S2> {
    pub first: S1,
    pub second: S2,
}

impl<S1, S2> CloningForkService<S1, S2> {
    pub fn new(first: S1, second: S2) -> (fork: Self)
        ensures
            fork.first == first,
            fork.second == second,
    {
        Self { first, second }
    }
}

impl<S1: Service, S2: Service<Input = S1::Input, Error = S1::Error>> Service for CloningForkService<
    S1,
    S2,
> where S1::Input: Clone {
    type Input = S1::Input;

    type Output = (S1::Output, S2::Output);

    type Error = S1::Error;

    /// The first unit accepts every clone of the input, and the second
    /// accepts the input.
    open spec fn accepts(&self, input: Self::Input) -> bool {
        &&& forall|copy: S1::Input| #[trigger] cloned(input, copy) ==> self.first.accepts(copy)
        &&& self.second.accepts(input)
    }

    /// Both outputs, or the failure of the first unit that failed.
    open spec fn yields(&self, input: Self::Input, result: Result<Self::Output, Self::Error>) -> bool {
        exists|copy: S1::Input| #[trigger]
            cloned(input, copy) && if result is Ok {
                &&& self.first.yields(copy, Ok(result->Ok_0.0))
                &&& self.second.yields(input, Ok(result->Ok_0.1))
            } else {
                ||| self.first.yields(copy, Err(result->Err_0))
                ||| exists|left: S1::Output| #[trigger]
                    self.first.yields(copy, Ok(left)) && self.second.yields(
                        input,
                        Err(result->Err_0),
                    )
            }
    }

    fn process(&self, input: Self::Input) -> (result: Result<Self::Output, Self::Error>) {
        let copy = input.clone();
        assert(cloned(input, copy));
        let left = match self.first.process(copy) {
            Ok(left) => left,
            Err(err) => return Err(err),
        };
        match self.second.process(input) {
            Ok(right) => Ok((left, right)),
            Err(err) => Err(err),
        }
    }
}

impl<S1: MutService, S2: MutService<Input = S1::Input, Error = S1::Error>> MutService for CloningForkService<
    S1,
    S2,
> where S1::Input: Clone {
    type Input = S1::Input;

    type Output = (S1::Output, S2::Output);

    type Error = S1::Error;

    open spec fn accepts_mut(&self, input: Self::Input) -> bool {
        &&& forall|copy: S1::Input| #[trigger] cloned(input, copy) ==> self.first.accepts_mut(copy)
        &&& self.second.accepts_mut(input)
    }

    /// Both outputs, or the failure of the first unit that failed. Where the
    /// first unit fails, the second is left as it was.
    open spec fn yields_mut(
        &self,
        input: Self::Input,
        next: &Self,
        result: Result<Self::Output, Self::Error>,
    ) -> bool {
        exists|copy: S1::Input| #[trigger]
            cloned(input, copy) && if result is Ok {
                &&& self.first.yields_mut(copy, &next.first, Ok(result->Ok_0.0))
                &&& self.second.yields_mut(input, &next.second, Ok(result->Ok_0.1))
            } else {
                ||| self.first.yields_mut(copy, &next.first, Err(result->Err_0)) && next.second
                    == self.second
                ||| exists|left: S1::Output| #[trigger]
                    self.first.yields_mut(copy, &next.first, Ok(left)) && self.second.yields_mut(
                        input,
                        &next.second,
                        Err(result->Err_0),
                    )
            }
    }

    fn process(&mut self, input: Self::Input) -> (result: Result<Self::Output, Self::Error>) {
        let copy = input.clone();
        assert(cloned(input, copy));
        let left = match self.first.process(copy) {
            Ok(left) => left,
            Err(err) => return Err(err),
        };
        match self.second.process(input) {
            Ok(right) => Ok((left, right)),
            Err(err) => Err(err),
        }
    }
}

/// A fork that hands the same reference to both units.
pub struct RefForkService<I, S1, S2> {
    pub first: S1,
    pub second: S2,
    pub marker: PhantomData<I>,
}

impl<I, S1, S2> RefForkService<I, S1, S2> {
    pub fn new(first: S1, second: S2) -> (fork: Self)
        ensures
            fork.first == first,
            fork.second == second,
    {
        Self { first, second, marker: PhantomData }
    }
}

impl<'a, I: 'a, E, S1: Service<Input = &'a I, Error = E>, S2: Service<
    Input = &'a I,
    Error = E,
>> Service for RefForkService<I, S1, S2> {
    type Input = &'a I;

    type Output = (S1::Output, S2::Output);

    type Error = E;

    open spec fn accepts(&self, input: &'a I) -> bool {
        &&& self.first.accepts(input)
        &&& self.second.accepts(input)
    }

    /// Both outputs, or the failure of the first unit that failed.
    open spec fn yields(&self, input: &'a I, result: Result<Self::Output, E>) -> bool {
        if result is Ok {
            &&& self.first.yields(input, Ok(result->Ok_0.0))
            &&& self.second.yields(input, Ok(result->Ok_0.1))
        } else {
            ||| self.first.yields(input, Err(result->Err_0))
            ||| exists|left: S1::Output| #[trigger]
                self.first.yields(input, Ok(left)) && self.second.yields(
                    input,
                    Err(result->Err_0),
                )
        }
    }

    fn process(&self, input: &'a I) -> (result: Result<Self::Output, E>) {
        let left = match self.first.process(input) {
            Ok(left) => left,
            Err(err) => return Err(err),
        };
        match self.second.process(input) {
            Ok(right) => Ok((left, right)),
            Err(err) => Err(err),
        }
    }
}

impl<'a, I: 'a, E, S1: MutService<Input = &'a I, Error = E>, S2: MutService<
    Input = &'a I,
    Error = E,
>> MutService for RefForkService<I, S1, S2> {
    type Input = &'a I;

    type Output = (S1::Output, S2::Output);

    type Error = E;

    open spec fn accepts_mut(&self, input: &'a I) -> bool {
        &&& self.first.accepts_mut(input)
        &&& self.second.accepts_mut(input)
    }

    /// Both outputs, or the failure of the first unit that failed. Where the
    /// first unit fails, the second is left as it was.
    open spec fn yields_mut(&self, input: &'a I, next: &Self, result: Result<Self::Output, E>) -> bool {
        if result is Ok {
            &&& self.first.yields_mut(input, &next.first, Ok(result->Ok_0.0))
            &&& self.second.yields_mut(input, &next.second, Ok(result->Ok_0.1))
        } else {
            ||| self.first.yields_mut(input, &next.first, Err(result->Err_0)) && next.second
                == self.second
            ||| exists|left: S1::Output| #[trigger]
                self.first.yields_mut(input, &next.first, Ok(left)) && self.second.yields_mut(
                    input,
                    &next.second,
                    Err(result->Err_0),
                )
        }
    }

    fn process(&mut self, input: &'a I) -> (result: Result<Self::Output, E>) {
        let left = match self.first.process(input) {
            Ok(left) => left,
            Err(err) => return Err(err),
        };
        match self.second.process(input) {
            Ok(right) => Ok((left, right)),
            Err(err) => Err(err),
        }
    }
}

} // verus!
