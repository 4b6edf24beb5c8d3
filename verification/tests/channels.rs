use bus::Bus;
use crossbeam::queue::ArrayQueue;
use sod::broadcast::BusBroadcaster;
use sod::broadcast::BusTryBroadcaster;
use sod::mpsc::MpscReceiver;
use sod::mpsc::MpscSender;
use sod::mpsc::MpscSyncTrySender;
use sod::mpsc::MpscTryReceiver;
use sod::queue::ArrayQueueForcePusher;
use sod::queue::ArrayQueuePopper;
use sod::queue::ArrayQueuePusher;
use sod::MutService;
use sod::PollService;
use sod::RetryError;
use sod::RetryService;
use sod::RetryToOptionService;
use sod::Retryable;
use sod::Service;
use std::cell::RefCell;
use std::convert::Infallible;
use std::sync::mpsc;
use std::sync::mpsc::SendError;
use std::sync::mpsc::TryRecvError;
use std::sync::mpsc::TrySendError;
use std::sync::Arc;

#[test]
fn an_empty_channel_reads_as_none() {
    let (tx, rx) = mpsc::channel();
    let sender = MpscSender::new(tx);
    let receiver = RetryToOptionService::new(MpscTryReceiver::new(rx));
    assert!(receiver.process(()) == Ok(None));
    sender.process(5).unwrap();
    assert!(receiver.process(()) == Ok(Some(5)));
    assert!(receiver.process(()) == Ok(None));
    drop(sender);
    assert!(receiver.process(()) == Err(RetryError::ServiceError(TryRecvError::Disconnected)));
}

#[test]
fn a_send_that_fails_hands_the_value_back() {
    let (tx, rx) = mpsc::channel();
    let sender = MpscSender::new(tx);
    drop(rx);
    assert!(sender.process(7) == Err(SendError(7)));
}

#[test]
fn a_full_channel_is_retried_and_a_disconnected_one_is_not() {
    let (tx, rx) = mpsc::sync_channel(1);
    let sender = MpscSyncTrySender::new(tx);
    assert!(sender.process(1) == Ok(()));
    assert!(sender.process(2) == Err(TrySendError::Full(2)));
    assert!(sender.parse_retry(TrySendError::Full(2)) == Ok(2));
    assert!(
        sender.parse_retry(TrySendError::Disconnected(2))
            == Err(RetryError::ServiceError(TrySendError::Disconnected(2)))
    );
    let receiver = MpscTryReceiver::new(rx);
    assert!(receiver.parse_retry(TryRecvError::Empty) == Ok(()));
    assert!(
        receiver.parse_retry(TryRecvError::Disconnected)
            == Err(RetryError::ServiceError(TryRecvError::Disconnected))
    );
}

#[test]
fn a_blocked_sender_gets_through_once_the_channel_is_drained() {
    let (tx, rx) = mpsc::sync_channel(2);
    let receiver = MpscReceiver::new(rx);
    let drained = RefCell::new(Vec::new());
    let sender = RetryService::new(
        MpscSyncTrySender::new(tx),
        |_: usize| -> Result<(), RetryError<TrySendError<u32>>> {
            drained.borrow_mut().push(receiver.process(()).unwrap());
            Ok(())
        },
    );
    for item in 0u32..10 {
        assert!(sender.process(item) == Ok(()));
    }
    assert_eq!(*drained.borrow(), vec![0, 1, 2, 3, 4, 5, 6, 7]);
    assert_eq!(receiver.process(()), Ok(8));
    assert_eq!(receiver.process(()), Ok(9));
}

#[test]
fn a_full_queue_hands_the_value_back() {
    let q = Arc::new(ArrayQueue::new(1));
    let pusher = ArrayQueuePusher::new(Arc::clone(&q));
    assert!(pusher.process(10) == Ok(()));
    assert!(pusher.process(20) == Err(20));
    assert!(pusher.parse_retry(20) == Ok(20));
}

#[test]
fn a_forced_push_gives_the_oldest_element_of_a_full_queue() {
    let q = Arc::new(ArrayQueue::new(2));
    let pusher = ArrayQueueForcePusher::new(Arc::clone(&q));
    let popper = ArrayQueuePopper::new(q);
    assert!(pusher.process(10) == Ok(None));
    assert!(pusher.process(20) == Ok(None));
    assert!(pusher.process(30) == Ok(Some(10)));
    assert!(popper.process(()) == Ok(Some(20)));
    assert!(popper.process(()) == Ok(Some(30)));
    assert!(popper.process(()) == Ok(None));
}

#[test]
fn a_retrying_pusher_delivers_every_item_in_order() {
    let q = Arc::new(ArrayQueue::new(128));
    let popper = ArrayQueuePopper::new(Arc::clone(&q));
    let delivered = RefCell::new(Vec::new());
    let pusher = RetryService::new(
        ArrayQueuePusher::new(q),
        |_: usize| -> Result<(), RetryError<u32>> {
            if let Some(item) = popper.process(()).unwrap() {
                delivered.borrow_mut().push(item);
            }
            Ok(())
        },
    );
    for item in 0u32..1024 {
        assert!(pusher.process(item) == Ok(()));
    }
    let poller = PollService::new(
        ArrayQueuePopper::new(Arc::clone(&popper.q)),
        |_: usize| -> Result<(), RetryError<Infallible>> { Ok(()) },
    );
    while delivered.borrow().len() < 1024 {
        let item = poller.process(()).unwrap();
        delivered.borrow_mut().push(item);
    }
    let expected: Vec<u32> = (0..1024).collect();
    assert_eq!(*delivered.borrow(), expected);
    assert!(popper.process(()) == Ok(None));
}

#[test]
fn a_full_bus_hands_the_value_back() {
    let mut broadcaster = BusTryBroadcaster::new(Bus::new(1));
    let mut reader = broadcaster.create_try_receiver();
    assert!(broadcaster.process("Hello") == Ok(()));
    assert!(broadcaster.process("world") == Err("world"));
    assert!(broadcaster.parse_retry("world") == Ok("world"));
    assert!(reader.process(()) == Ok("Hello"));
    assert!(reader.parse_retry(TryRecvError::Empty) == Ok(()));
    assert!(
        reader.parse_retry(TryRecvError::Disconnected)
            == Err(RetryError::ServiceError(TryRecvError::Disconnected))
    );
}

#[test]
fn readers_added_through_the_bus_see_later_broadcasts() {
    let mut broadcaster = BusBroadcaster::with_len(8);
    let mut early = broadcaster.create_try_receiver();
    broadcaster.process(1).unwrap();
    let mut late = sod::broadcast::BusTryReceiver::new(broadcaster.bus().add_rx());
    broadcaster.process(2).unwrap();
    assert!(early.process(()) == Ok(1));
    assert!(early.process(()) == Ok(2));
    assert!(late.process(()) == Ok(2));
    assert!(late.process(()) == Err(TryRecvError::Empty));
}
