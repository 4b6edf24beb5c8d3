//! Units behind shared ownership.

use crate::service::MutService;
use crate::service::Service;
use std::sync::Arc;
use vstd::prelude::*;
use vstd::rwlock::RwLock;

verus! {

/// A [`Service`] behind an [`Arc`], so that clones of it drive the same
/// unit from several threads.
pub struct ArcService<S: Service> {
    pub service: Arc<S>,
}

impl<S: Service> ArcService<S> {
    pub fn new(service: S) -> (shared: Self)
        ensures
            *shared.service == service,
    {
        Self { service: Arc::new(service) }
    }
}

impl<S: Service> Clone for ArcService<S> {
    fn clone(&self) -> (copy: Self)
        ensures
            copy == *self,
    {
        Self { service: Arc::clone(&self.service) }
    }
}

impl<S: Service> Service for ArcService<S> {
    type Input = S::Input;

    type Output = S::Output;

    type Error = S::Error;

    open spec fn accepts(&self, input: Self::Input) -> bool {
        self.service.accepts(input)
    }

    open spec fn yields(&self, input: Self::Input, result: Result<Self::Output, Self::Error>) -> bool {
        self.service.yields(input, result)
    }

    fn process(&self, input: Self::Input) -> (result: Result<Self::Output, Self::Error>) {
        self.service.process(input)
    }
}

/// Whether an exclusive unit that starts as `from` can be `to` after `steps`
/// calls of `process`, each on an input that it accepted.
pub open spec fn reaches<S: MutService>(from: S, to: S, steps: nat) -> bool
    decreases steps,
{
    if steps == 0 {
        to == from
    } else {
        exists|mid: S, input: S::Input, result: Result<S::Output, S::Error>|
            reaches(from, mid, (steps - 1) as nat) && mid.accepts_mut(input) && #[trigger]
                mid.yields_mut(input, &to, result)
    }
}

/// Whether an exclusive unit that starts as `from` can come to be `to`.
pub open spec fn reachable<S: MutService>(from: S, to: S) -> bool {
    exists|steps: nat| reaches(from, to, steps)
}

/// A unit can be what it starts as.
pub proof fn lemma_reachable_start<S: MutService>(from: S)
    ensures
        reachable(from, from),
{
    assert(reaches(from, from, 0));
}

/// A unit that can be reached can be left, by one more call on an input that
/// it accepts, only as a unit that can be reached.
pub proof fn lemma_reachable_step<S: MutService>(
    from: S,
    unit: S,
    input: S::Input,
    next: S,
    result: Result<S::Output, S::Error>,
)
    requires
        reachable(from, unit),
        unit.accepts_mut(input),
        unit.yields_mut(input, &next, result),
    ensures
        reachable(from, next),
{
    let steps = choose|steps: nat| reaches(from, unit, steps);
    assert(reaches(from, next, steps + 1));
}

/// A [`Service`] that drives a [`MutService`] under a lock, one call at a
/// time, so that clones of it can be used from several threads.
///
/// Between two calls other holders may have driven the unit, so its state at
/// a call is not known: it is one of the states that the lock holds, which
/// for a service made by `new` are those that the wrapped unit can reach.
#[verifier::reject_recursive_types(S)]
pub struct MutexService<S> {
    pub service: Arc<RwLock<S, spec_fn(S) -> bool>>,
}

impl<S: MutService> MutexService<S> {
    /// Whether the unit under the lock may be `unit`.
    pub open spec fn holds(&self, unit: S) -> bool {
        self.service.inv(unit)
    }

    /// Put `service` under a lock. The unit under the lock is, at any time,
    /// one that `service` can come to be.
    pub fn new(service: S) -> (wrapped: Self)
        ensures
            forall|unit: S| #[trigger] wrapped.holds(unit) <==> reachable(service, unit),
    {
        let ghost states = |unit: S| reachable(service, unit);
        proof {
            lemma_reachable_start(service);
        }
        Self { service: Arc::new(RwLock::new(service, Ghost(states))) }
    }
}

impl<S> Clone for MutexService<S> {
    fn clone(&self) -> (copy: Self)
        ensures
            copy == *self,
    {
        Self { service: Arc::clone(&self.service) }
    }
}

impl<S: MutService> Service for MutexService<S> {
    type Input = S::Input;

    type Output = S::Output;

    type Error = S::Error;

    /// Whatever unit the lock holds accepts the input, and is left by the
    /// call as a unit that the lock may hold.
    open spec fn accepts(&self, input: Self::Input) -> bool {
        &&& forall|unit: S| #[trigger] self.holds(unit) ==> unit.accepts_mut(input)
        &&& forall|unit: S, next: S, result: Result<Self::Output, Self::Error>|
            self.holds(unit) && #[trigger] unit.yields_mut(input, &next, result) ==> self.holds(
                next,
            )
    }

    /// A result that a unit which the lock may hold gives for the input.
    open spec fn yields(&self, input: Self::Input, result: Result<Self::Output, Self::Error>) -> bool {
        exists|before: S, after: S|
            self.holds(before) && #[trigger] before.yields_mut(input, &after, result)
    }

    fn process(&self, input: Self::Input) -> (result: Result<Self::Output, Self::Error>) {
        let (mut unit, handle) = self.service.acquire_write();
        let ghost before = unit;
        assert(self.holds(before));
        let result = unit.process(input);
        assert(before.yields_mut(input, &unit, result));
        handle.release_write(unit);
        result
    }
}

/// A service made by `new` accepts an input as soon as every unit that the
/// wrapped unit can come to be accepts it.
pub proof fn lemma_locked_accepts<S: MutService>(
    service: S,
    wrapped: MutexService<S>,
    input: S::Input,
)
    requires
        forall|unit: S| #[trigger] wrapped.holds(unit) <==> reachable(service, unit),
        forall|unit: S| #[trigger] reachable(service, unit) ==> unit.accepts_mut(input),
    ensures
        wrapped.accepts(input),
{
    assert forall|unit: S, next: S, result: Result<S::Output, S::Error>|
        wrapped.holds(unit) && #[trigger] unit.yields_mut(input, &next, result) implies wrapped.holds(
        next,
    ) by {
        lemma_reachable_step(service, unit, input, next, result);
    }
}

} // verus!
