use bus::Bus;
use sod::broadcast::BusBroadcaster;
use sod::broadcast::BusTryBroadcaster;
use sod::MutService;
use std::sync::mpsc::TryRecvError;

#[test]
fn blocking() {
    let mut broadcaster = BusBroadcaster::new(Bus::new(1024));
    let mut reader1 = broadcaster.create_receiver();
    let mut reader2 = broadcaster.create_receiver();
    broadcaster.process(1).unwrap();
    broadcaster.process(2).unwrap();
    broadcaster.process(3).unwrap();

    assert_eq!(reader1.process(()).unwrap(), 1);
    assert_eq!(reader1.process(()).unwrap(), 2);
    assert_eq!(reader1.process(()).unwrap(), 3);

    assert_eq!(reader2.process(()).unwrap(), 1);
    assert_eq!(reader2.process(()).unwrap(), 2);
    assert_eq!(reader2.process(()).unwrap(), 3);
}

#[test]
fn non_blocking() {
    let mut broadcaster = BusTryBroadcaster::new(Bus::new(1024));
    let mut reader1 = broadcaster.create_try_receiver();
    let mut reader2 = broadcaster.create_try_receiver();

    broadcaster.process(1).unwrap();
    broadcaster.process(2).unwrap();
    broadcaster.process(3).unwrap();

    assert_eq!(reader1.process(()).unwrap(), 1);
    assert_eq!(reader1.process(()).unwrap(), 2);
    assert_eq!(reader1.process(()).unwrap(), 3);

    assert_eq!(reader2.process(()).unwrap(), 1);
    assert_eq!(reader2.process(()).unwrap(), 2);
    assert_eq!(reader2.process(()).unwrap(), 3);
    assert_eq!(reader2.process(()), Err(TryRecvError::Empty));
}
