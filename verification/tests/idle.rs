use sod::idle::backoff;
use sod::idle::check_keep_running;
use sod::idle::park;
use sod::idle::park_one_micro;
use sod::idle::park_one_milli;
use sod::idle::park_one_sec;
use sod::idle::sleep;
use sod::idle::sleep_one_micro;
use sod::idle::sleep_one_milli;
use sod::idle::sleep_one_sec;
use sod::idle::spin;
use sod::idle::yielding;
use sod::idle::IdleAction;
use sod::RetryError;

fn stopped(answer: Result<IdleAction, RetryError<u8>>) -> bool {
    answer == Err(RetryError::Interrupted)
}

#[test]
fn keep_running_flag_decides() {
    assert!(check_keep_running::<u8>(true) == Ok(()));
    assert!(check_keep_running::<u8>(false) == Err(RetryError::Interrupted));
}

#[test]
fn every_strategy_is_interrupted_once_stopped() {
    for attempts in [0usize, 1, 9, 10, 19, 20, 29, 30, 1000, usize::MAX] {
        assert!(stopped(backoff(attempts, false)));
        assert!(stopped(spin(attempts, false)));
        assert!(stopped(yielding(attempts, false)));
        assert!(stopped(park(attempts, false, 17)));
        assert!(stopped(park_one_micro(attempts, false)));
        assert!(stopped(park_one_milli(attempts, false)));
        assert!(stopped(park_one_sec(attempts, false)));
        assert!(stopped(sleep(attempts, false, 17)));
        assert!(stopped(sleep_one_micro(attempts, false)));
        assert!(stopped(sleep_one_milli(attempts, false)));
        assert!(stopped(sleep_one_sec(attempts, false)));
    }
}

#[test]
fn backoff_spins_for_the_first_ten_attempts() {
    for attempts in 0usize..10 {
        assert!(backoff::<u8>(attempts, true) == Ok(IdleAction::Spin));
    }
}

#[test]
fn backoff_yields_for_the_next_ten_attempts() {
    for attempts in 10usize..20 {
        assert!(backoff::<u8>(attempts, true) == Ok(IdleAction::Yield));
    }
}

#[test]
fn backoff_parks_for_doubling_times() {
    let expected: [u64; 10] = [1, 2, 4, 8, 16, 32, 64, 128, 256, 512];
    for step in 0usize..10 {
        assert!(
            backoff::<u8>(20 + step, true)
                == Ok(IdleAction::Park {
                    micros: expected[step]
                })
        );
    }
}

#[test]
fn backoff_parks_for_1024_micros_from_thirty_on() {
    for attempts in [30usize, 31, 100, 1 << 20, usize::MAX] {
        assert!(backoff::<u8>(attempts, true) == Ok(IdleAction::Park { micros: 1024 }));
    }
}

#[test]
fn fixed_strategies_ask_for_their_wait() {
    for attempts in [0usize, 7, 25, usize::MAX] {
        assert!(spin::<u8>(attempts, true) == Ok(IdleAction::Spin));
        assert!(yielding::<u8>(attempts, true) == Ok(IdleAction::Yield));
        assert!(park::<u8>(attempts, true, 250) == Ok(IdleAction::Park { micros: 250 }));
        assert!(park_one_micro::<u8>(attempts, true) == Ok(IdleAction::Park { micros: 1 }));
        assert!(park_one_milli::<u8>(attempts, true) == Ok(IdleAction::Park { micros: 1_000 }));
        assert!(park_one_sec::<u8>(attempts, true) == Ok(IdleAction::Park { micros: 1_000_000 }));
        assert!(sleep::<u8>(attempts, true, 250) == Ok(IdleAction::Sleep { micros: 250 }));
        assert!(sleep_one_micro::<u8>(attempts, true) == Ok(IdleAction::Sleep { micros: 1 }));
        assert!(sleep_one_milli::<u8>(attempts, true) == Ok(IdleAction::Sleep { micros: 1_000 }));
        assert!(
            sleep_one_sec::<u8>(attempts, true) == Ok(IdleAction::Sleep { micros: 1_000_000 })
        );
    }
}
