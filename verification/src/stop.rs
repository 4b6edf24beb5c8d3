//! A gate in a chain: a unit that passes its input on while a condition
//! holds and fails once it does not.

use crate::service::Service;
use crate::text::write_text;
use std::fmt::Display;
use std::fmt::Formatter;
use std::marker::PhantomData;
use vstd::prelude::*;

verus! {

/// The error of a unit that was asked to stop.
#[derive(Debug, PartialEq, Eq, Structural)]
pub struct Stopped;

impl Clone for Stopped {
    fn clone(&self) -> (copy: Self)
        ensures
            copy == *self,
    {
        Stopped
    }
}

impl Stopped {
    /// The text under which this error is shown: `Stopped`.
    pub fn message(&self) -> (text: &'static str)
        ensures
            text@ == "Stopped"@,
    {
        "Stopped"
    }
}

impl Display for Stopped {
    fn fmt(&self, f: &mut Formatter<'_>) -> Result<(), std::fmt::Error> {
        write_text(f, self.message())
    }
}

impl std::error::Error for Stopped {

}

/// A [`Service`] that asks a function whether to keep running: on `true` the
/// input is the output, on `false` the result is `Err(Stopped)`.
#[verifier::reject_recursive_types(I)]
pub struct StopService<I, KeepRunningFunc: Fn() -> bool> {
    pub f: KeepRunningFunc,
    pub marker: PhantomData<I>,
}

impl<I, KeepRunningFunc: Fn() -> bool> StopService<I, KeepRunningFunc> {
    pub fn new(f: KeepRunningFunc) -> (gate: Self)
        ensures
            gate.f == f,
    {
        Self { f, marker: PhantomData }
    }
}

impl<I, KeepRunningFunc: Fn() -> bool> Service for StopService<I, KeepRunningFunc> {
    type Input = I;

    type Output = I;

    type Error = Stopped;

    open spec fn accepts(&self, input: I) -> bool {
        self.f.requires(())
    }

    /// The input where the function may answer `true`, `Stopped` where it
    /// may answer `false`.
    open spec fn yields(&self, input: I, result: Result<I, Stopped>) -> bool {
        match result {
            Ok(output) => output == input && self.f.ensures((), true),
            Err(_) => self.f.ensures((), false),
        }
    }

    fn process(&self, input: I) -> (result: Result<I, Stopped>) {
        if (self.f)() {
            Ok(input)
        } else {
            Err(Stopped)
        }
    }
}

} // verus!
