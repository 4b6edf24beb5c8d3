use sod::mpsc::MpscReceiver;
use sod::mpsc::MpscSender;
use sod::mpsc::MpscSyncSender;
use sod::mpsc::MpscSyncTrySender;
use sod::mpsc::MpscTryReceiver;
use sod::Service;
use std::sync::mpsc;
use std::sync::mpsc::TryRecvError;

#[test]
fn channel() {
    let (tx, rx) = mpsc::channel();
    let pusher = MpscSender::new(tx);
    let poller = MpscReceiver::new(rx);

    pusher.process(1).unwrap();
    pusher.process(2).unwrap();
    pusher.process(3).unwrap();

    assert_eq!(poller.process(()).unwrap(), 1);
    assert_eq!(poller.process(()).unwrap(), 2);
    assert_eq!(poller.process(()).unwrap(), 3);
}

#[test]
fn sync_channel() {
    let (tx, rx) = mpsc::sync_channel(5);
    let pusher = MpscSyncSender::new(tx);
    let poller = MpscReceiver::new(rx);

    pusher.process(1).unwrap();
    pusher.process(2).unwrap();
    pusher.process(3).unwrap();

    assert_eq!(poller.process(()), Ok(1));
    assert_eq!(poller.process(()), Ok(2));
    assert_eq!(poller.process(()), Ok(3));
}

#[test]
fn try_sync_channel() {
    let (tx, rx) = mpsc::sync_channel(5);
    let pusher = MpscSyncTrySender::new(tx);
    let poller = MpscTryReceiver::new(rx);

    pusher.process(1).unwrap();
    pusher.process(2).unwrap();
    pusher.process(3).unwrap();

    assert_eq!(poller.process(()), Ok(1));
    assert_eq!(poller.process(()), Ok(2));
    assert_eq!(poller.process(()), Ok(3));
    assert_eq!(poller.process(()), Err(TryRecvError::Empty));
}
