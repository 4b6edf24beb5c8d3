//! The round of the loop that drives a unit in the background.
//!
//! The loop itself never ends by its own doing, so it is the caller's to
//! write, on a thread of its own: it calls [`loop_round`] or
//! [`loop_round_mut`] for as long as the answer is `true`.

use crate::service::MutService;
use crate::service::Service;
use vstd::prelude::*;

verus! {

/// Whether one round over a unit may end in `go_on`: the loop goes on after
/// a success and after a failure that the handler takes, and ends after a
/// failure that the handler hands back.
pub open spec fn round_ends<S, F>(service: S, error_handler: F, go_on: bool) -> bool where
    S: Service<Input = ()>,
    F: Fn(S::Error) -> Result<(), S::Error>,
 {
    if go_on {
        ||| exists|output: S::Output| service.yields((), Ok(output))
        ||| exists|err: S::Error, taken: Result<(), S::Error>| #[trigger]
            service.yields((), Err(err)) && #[trigger] error_handler.ensures((err,), taken)
                && taken is Ok
    } else {
        exists|err: S::Error, back: Result<(), S::Error>| #[trigger]
            service.yields((), Err(err)) && #[trigger] error_handler.ensures((err,), back)
                && back is Err
    }
}

/// One round of the loop that drives `service`: process once, and hand a
/// failure to `error_handler`. The answer is whether the loop goes on.
pub fn loop_round<S, F>(service: &S, error_handler: &F) -> (go_on: bool) where
    S: Service<Input = ()>,
    F: Fn(S::Error) -> Result<(), S::Error>,

    requires
        service.accepts(()),
        forall|err: S::Error| #[trigger] service.yields((), Err(err)) ==> error_handler.requires((err,)),
    ensures
        round_ends(*service, *error_handler, go_on),
{
    match service.process(()) {
        Ok(_) => true,
        Err(err) => {
            let handled = error_handler(err);
            assert(error_handler.ensures((err,), handled));
            handled.is_ok()
        },
    }
}

/// Whether one round over an exclusive unit in state `service` may leave it
/// as `next` and end in `go_on`.
pub open spec fn round_ends_mut<S, F>(service: S, error_handler: F, next: S, go_on: bool) -> bool where
    S: MutService<Input = ()>,
    F: Fn(S::Error) -> Result<(), S::Error>,
 {
    if go_on {
        ||| exists|output: S::Output| service.yields_mut((), &next, Ok(output))
        ||| exists|err: S::Error, taken: Result<(), S::Error>| #[trigger]
            service.yields_mut((), &next, Err(err)) && #[trigger] error_handler.ensures(
                (err,),
                taken,
            ) && taken is Ok
    } else {
        exists|err: S::Error, back: Result<(), S::Error>| #[trigger]
            service.yields_mut((), &next, Err(err)) && #[trigger] error_handler.ensures(
                (err,),
                back,
            ) && back is Err
    }
}

/// One round of the loop that drives an exclusive `service`: process once,
/// and hand a failure to `error_handler`. The answer is whether the loop
/// goes on.
pub fn loop_round_mut<S, F>(service: &mut S, error_handler: &F) -> (go_on: bool) where
    S: MutService<Input = ()>,
    F: Fn(S::Error) -> Result<(), S::Error>,

    requires
        old(service).accepts_mut(()),
        forall|next: S, err: S::Error| #[trigger]
            old(service).yields_mut((), &next, Err(err)) ==> error_handler.requires((err,)),
    ensures
        round_ends_mut(*old(service), *error_handler, *final(service), go_on),
{
    match service.process(()) {
        Ok(_) => true,
        Err(err) => {
            let handled = error_handler(err);
            assert(error_handler.ensures((err,), handled));
            handled.is_ok()
        },
    }
}

} // verus!
