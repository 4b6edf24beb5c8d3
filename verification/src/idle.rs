//! Idle strategies: what a retry or a poll does between two attempts.
//!
//! A strategy is a decision: given the number of failed attempts so far and
//! whether the program is still meant to run, it answers with the wait to
//! perform, or with [`RetryError::Interrupted`]. The flag is looked at before
//! anything else, so a stop is noticed within one wait. Performing the wait
//! is left to the caller.

use crate::retry::RetryError;
use vstd::arithmetic::power2::lemma2_to64;
use vstd::arithmetic::power2::pow2;
use vstd::bits::lemma_u64_shl_is_mul;
use vstd::prelude::*;

verus! {

/// The wait that an idle strategy asks for.
#[derive(Clone, Copy, Debug, PartialEq, Eq, Structural)]
pub enum IdleAction {
    /// Go on at once.
    Spin,
    /// Give the processor up to the scheduler once.
    Yield,
    /// Park the thread for this many microseconds.
    Park { micros: u64 },
    /// Put the thread to sleep for this many microseconds.
    Sleep { micros: u64 },
}

/// `Ok` while the program is meant to run, `Interrupted` once it is not.
pub fn check_keep_running<E>(keep_running: bool) -> (checked: Result<(), RetryError<E>>)
    ensures
        keep_running ==> checked is Ok,
        !keep_running ==> checked == Err::<(), RetryError<E>>(RetryError::Interrupted),
{
    if keep_running {
        Ok(())
    } else {
        Err(RetryError::Interrupted)
    }
}

/// What a strategy answers that asks for `action` while the program runs.
pub open spec fn idle_answer<E>(keep_running: bool, action: IdleAction) -> Result<
    IdleAction,
    RetryError<E>,
> {
    if keep_running {
        Ok(action)
    } else {
        Err(RetryError::Interrupted)
    }
}

/// The wait of the backoff strategy after `attempts` failed attempts: none
/// for the first ten, a yield for the next ten, then a park that starts at
/// one microsecond and doubles with each attempt, up to 1024 microseconds
/// from the thirtieth on.
pub open spec fn backoff_action(attempts: usize) -> IdleAction {
    if attempts < 10 {
        IdleAction::Spin
    } else if attempts < 20 {
        IdleAction::Yield
    } else if attempts < 30 {
        IdleAction::Park { micros: pow2((attempts - 20) as nat) as u64 }
    } else {
        IdleAction::Park { micros: 1024 }
    }
}

/// The waits of the backoff strategy by attempt number: no wait below ten,
/// a yield below twenty, a park of two to the power of `attempts - 20`
/// microseconds below thirty, which is 1 at twenty and 512 at twenty-nine,
/// and a park of 1024 microseconds from thirty on.
pub proof fn lemma_backoff_waits(attempts: usize)
    ensures
        attempts < 10 ==> backoff_action(attempts) == IdleAction::Spin,
        10 <= attempts < 20 ==> backoff_action(attempts) == IdleAction::Yield,
        20 <= attempts < 30 ==> backoff_action(attempts) == (IdleAction::Park {
            micros: pow2((attempts - 20) as nat) as u64,
        }) && 1 <= pow2((attempts - 20) as nat) <= 512,
        attempts >= 30 ==> backoff_action(attempts) == (IdleAction::Park { micros: 1024 }),
        backoff_action(20) == (IdleAction::Park { micros: 1 }),
        backoff_action(21) == (IdleAction::Park { micros: 2 }),
        backoff_action(29) == (IdleAction::Park { micros: 512 }),
{
    lemma2_to64();
}

/// Spin ten times, yield ten times, then park for 1, 2, 4, ... microseconds
/// and for 1024 microseconds from the thirtieth attempt on.
pub fn backoff<E>(attempts: usize, keep_running: bool) -> (answer: Result<IdleAction, RetryError<E>>)
    ensures
        answer == idle_answer::<E>(keep_running, backoff_action(attempts)),
{
    if !keep_running {
        return Err(RetryError::Interrupted);
    }
    if attempts < 10 {
        Ok(IdleAction::Spin)
    } else if attempts < 20 {
        Ok(IdleAction::Yield)
    } else if attempts < 30 {
        let doublings: u64 = (attempts - 20) as u64;
        proof {
            lemma2_to64();
            lemma_u64_shl_is_mul(1, doublings);
        }
        Ok(IdleAction::Park { micros: 1u64 << doublings })
    } else {
        Ok(IdleAction::Park { micros: 1024 })
    }
}

/// No wait.
pub fn spin<E>(attempts: usize, keep_running: bool) -> (answer: Result<IdleAction, RetryError<E>>)
    ensures
        answer == idle_answer::<E>(keep_running, IdleAction::Spin),
{
    match check_keep_running(keep_running) {
        Ok(()) => Ok(IdleAction::Spin),
        Err(stop) => Err(stop),
    }
}

/// A yield to the scheduler.
pub fn yielding<E>(attempts: usize, keep_running: bool) -> (answer: Result<
    IdleAction,
    RetryError<E>,
>)
    ensures
        answer == idle_answer::<E>(keep_running, IdleAction::Yield),
{
    match check_keep_running(keep_running) {
        Ok(()) => Ok(IdleAction::Yield),
        Err(stop) => Err(stop),
    }
}

/// A park of `micros` microseconds.
pub fn park<E>(attempts: usize, keep_running: bool, micros: u64) -> (answer: Result<
    IdleAction,
    RetryError<E>,
>)
    ensures
        answer == idle_answer::<E>(keep_running, IdleAction::Park { micros }),
{
    match check_keep_running(keep_running) {
        Ok(()) => Ok(IdleAction::Park { micros }),
        Err(stop) => Err(stop),
    }
}

/// A park of one microsecond.
pub fn park_one_micro<E>(attempts: usize, keep_running: bool) -> (answer: Result<
    IdleAction,
    RetryError<E>,
>)
    ensures
        answer == idle_answer::<E>(keep_running, IdleAction::Park { micros: 1 }),
{
    park(attempts, keep_running, 1)
}

/// A park of one millisecond.
pub fn park_one_milli<E>(attempts: usize, keep_running: bool) -> (answer: Result<
    IdleAction,
    RetryError<E>,
>)
    ensures
        answer == idle_answer::<E>(keep_running, IdleAction::Park { micros: 1_000 }),
{
    park(attempts, keep_running, 1_000)
}

/// A park of one second.
pub fn park_one_sec<E>(attempts: usize, keep_running: bool) -> (answer: Result<
    IdleAction,
    RetryError<E>,
>)
    ensures
        answer == idle_answer::<E>(keep_running, IdleAction::Park { micros: 1_000_000 }),
{
    park(attempts, keep_running, 1_000_000)
}

/// A sleep of `micros` microseconds.
pub fn sleep<E>(attempts: usize, keep_running: bool, micros: u64) -> (answer: Result<
    IdleAction,
    RetryError<E>,
>)
    ensures
        answer == idle_answer::<E>(keep_running, IdleAction::Sleep { micros }),
{
    match check_keep_running(keep_running) {
        Ok(()) => Ok(IdleAction::Sleep { micros }),
        Err(stop) => Err(stop),
    }
}

/// A sleep of one microsecond.
pub fn sleep_one_micro<E>(attempts: usize, keep_running: bool) -> (answer: Result<
    IdleAction,
    RetryError<E>,
>)
    ensures
        answer == idle_answer::<E>(keep_running, IdleAction::Sleep { micros: 1 }),
{
    sleep(attempts, keep_running, 1)
}

/// A sleep of one millisecond.
pub fn sleep_one_milli<E>(attempts: usize, keep_running: bool) -> (answer: Result<
    IdleAction,
    RetryError<E>,
>)
    ensures
        answer == idle_answer::<E>(keep_running, IdleAction::Sleep { micros: 1_000 }),
{
    sleep(attempts, keep_running, 1_000)
}

/// A sleep of one second.
pub fn sleep_one_sec<E>(attempts: usize, keep_running: bool) -> (answer: Result<
    IdleAction,
    RetryError<E>,
>)
    ensures
        answer == idle_answer::<E>(keep_running, IdleAction::Sleep { micros: 1_000_000 }),
{
    sleep(attempts, keep_running, 1_000_000)
}

/// Whatever wait a strategy would ask for, it answers `Interrupted` once the
/// program is no longer meant to run, on every attempt number.
pub proof fn lemma_stopped_is_interrupted<E>(action: IdleAction)
    ensures
        idle_answer::<E>(false, action) == Err::<IdleAction, RetryError<E>>(
            RetryError::Interrupted,
        ),
        idle_answer::<E>(true, action) == Ok::<IdleAction, RetryError<E>>(action),
{
}

} // verus!
