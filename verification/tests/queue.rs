use crossbeam::queue::ArrayQueue;
use crossbeam::queue::SegQueue;
use sod::queue::ArrayQueuePopper;
use sod::queue::ArrayQueuePusher;
use sod::queue::SegQueuePopper;
use sod::queue::SegQueuePusher;
use sod::Service;
use std::sync::Arc;

#[test]
fn array_queue() {
    let q = Arc::new(ArrayQueue::new(128));
    let pusher = ArrayQueuePusher::new(Arc::clone(&q));
    let poller = ArrayQueuePopper::new(q);

    pusher.process(1).unwrap();
    pusher.process(2).unwrap();
    pusher.process(3).unwrap();

    assert_eq!(poller.process(()).unwrap(), Some(1));
    assert_eq!(poller.process(()).unwrap(), Some(2));
    assert_eq!(poller.process(()).unwrap(), Some(3));
    assert_eq!(poller.process(()).unwrap(), None);
}

#[test]
fn seg_queue() {
    let q = Arc::new(SegQueue::new());
    let pusher = SegQueuePusher::new(Arc::clone(&q));
    let poller = SegQueuePopper::new(q);

    pusher.process(1).unwrap();
    pusher.process(2).unwrap();
    pusher.process(3).unwrap();

    assert_eq!(poller.process(()).unwrap(), Some(1));
    assert_eq!(poller.process(()).unwrap(), Some(2));
    assert_eq!(poller.process(()).unwrap(), Some(3));
    assert_eq!(poller.process(()).unwrap(), None);
}
