use sod::poll::poll_step;
use sod::poll::PollStep;
use sod::MutService;
use sod::PollService;
use sod::RetryError;
use sod::Service;
use std::cell::Cell;
use std::cell::RefCell;

/// Has nothing `empties` times, then gives `value` for good.
struct Countdown {
    empties: usize,
    value: u32,
    calls: usize,
}
impl MutService for Countdown {
    type Input = ();
    type Output = Option<u32>;
    type Error = &'static str;
    fn process(&mut self, _: ()) -> Result<Option<u32>, &'static str> {
        self.calls += 1;
        if self.empties > 0 {
            self.empties -= 1;
            Ok(None)
        } else {
            Ok(Some(self.value))
        }
    }
}

/// The same through a shared reference.
struct SharedCountdown {
    empties: Cell<usize>,
    value: u32,
}
impl Service for SharedCountdown {
    type Input = ();
    type Output = Option<u32>;
    type Error = &'static str;
    fn process(&self, _: ()) -> Result<Option<u32>, &'static str> {
        if self.empties.get() > 0 {
            self.empties.set(self.empties.get() - 1);
            Ok(None)
        } else {
            Ok(Some(self.value))
        }
    }
}

/// Has nothing once, then fails.
struct Breaks {
    calls: usize,
}
impl MutService for Breaks {
    type Input = ();
    type Output = Option<u32>;
    type Error = &'static str;
    fn process(&mut self, _: ()) -> Result<Option<u32>, &'static str> {
        self.calls += 1;
        if self.calls == 1 {
            Ok(None)
        } else {
            Err("broken")
        }
    }
}

#[test]
fn a_poll_idles_once_for_each_empty_answer() {
    for empties in [0usize, 1, 2, 7, 40] {
        let seen = RefCell::new(Vec::new());
        let mut poll = PollService::new(
            Countdown {
                empties,
                value: 99,
                calls: 0,
            },
            |attempt: usize| -> Result<(), RetryError<&'static str>> {
                seen.borrow_mut().push(attempt);
                Ok(())
            },
        );
        assert!(poll.process(()) == Ok(99));
        assert_eq!(poll.service.calls, empties + 1);
        let expected: Vec<usize> = (0..empties).collect();
        assert_eq!(*seen.borrow(), expected);
    }
}

#[test]
fn a_shared_poll_idles_once_for_each_empty_answer() {
    let idled = Cell::new(0usize);
    let poll = PollService::new(
        SharedCountdown {
            empties: Cell::new(3),
            value: 5,
        },
        |_: usize| -> Result<(), RetryError<&'static str>> {
            idled.set(idled.get() + 1);
            Ok(())
        },
    );
    assert!(poll.process(()) == Ok(5));
    assert_eq!(idled.get(), 3);
    assert!(poll.process(()) == Ok(5));
    assert_eq!(idled.get(), 3);
}

#[test]
fn a_failure_of_the_source_ends_the_poll_at_once() {
    let idled = Cell::new(0usize);
    let mut poll = PollService::new(
        Breaks { calls: 0 },
        |_: usize| -> Result<(), RetryError<&'static str>> {
            idled.set(idled.get() + 1);
            Ok(())
        },
    );
    assert!(poll.process(()) == Err(RetryError::ServiceError("broken")));
    assert_eq!(poll.service.calls, 2);
    assert_eq!(idled.get(), 1);
}

#[test]
fn an_interruption_ends_the_poll() {
    let mut poll = PollService::new(
        Countdown {
            empties: 10,
            value: 1,
            calls: 0,
        },
        |attempt: usize| -> Result<(), RetryError<&'static str>> {
            if attempt < 2 {
                Ok(())
            } else {
                Err(RetryError::Interrupted)
            }
        },
    );
    assert!(poll.process(()) == Err(RetryError::Interrupted));
    assert_eq!(poll.service.calls, 3);
}

#[test]
fn the_step_after_an_answer() {
    assert!(matches!(
        poll_step::<u8, u8>(Ok(Some(3))),
        PollStep::Ready(3)
    ));
    assert!(matches!(poll_step::<u8, u8>(Ok(None)), PollStep::Idle));
    assert!(matches!(
        poll_step::<u8, u8>(Err(4)),
        PollStep::Failed(RetryError::ServiceError(4))
    ));
}
