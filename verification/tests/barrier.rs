use futures::task::{waker, ArcWake};
use lifeline::channel::barrier::{BarrierInner, BarrierValue};
use std::sync::atomic::{AtomicUsize, Ordering};
use std::sync::Arc;
use std::task::Waker;

/// Counts how often it is woken.
struct Count(AtomicUsize);

impl ArcWake for Count {
    fn wake_by_ref(arc_self: &Arc<Self>) {
        arc_self.0.fetch_add(1, Ordering::SeqCst);
    }
}

fn counter() -> (Arc<Count>, Waker) {
    let count = Arc::new(Count(AtomicUsize::new(0)));
    (count.clone(), waker(count))
}

fn woken(count: &Arc<Count>) -> usize {
    count.0.load(Ordering::SeqCst)
}

#[derive(Debug, Default, Clone, PartialEq, Eq)]
struct Message {
    data: bool,
}

#[test]
fn simple_barrier() {
    let (_, waker) = counter();
    let mut barrier = BarrierInner::new();

    // before the release a receiver has to wait
    assert!(!barrier.is_released());
    assert_eq!(barrier.poll(&waker), None);

    barrier.release(Some(Message { data: true }));
    assert!(barrier.is_released());

    assert_eq!(barrier.poll(&waker), Some(Message { data: true }));
    assert_eq!(Message { data: true }, barrier.value());
}

#[test]
fn sender_receiver() {
    let (_, waker) = counter();
    let mut barrier = BarrierInner::new();
    assert_eq!(barrier.poll(&waker), None);

    // sending releases the barrier with the message
    barrier.release(Some(Message { data: true }));

    let message = barrier.poll(&waker);
    assert_eq!(Some(Message { data: true }), message);
}

#[test]
fn drop_sends() {
    let (_, waker) = counter();
    let mut barrier: BarrierInner<Message> = BarrierInner::new();
    assert_eq!(barrier.poll(&waker), None);

    // dropping the sender releases the barrier without a value
    barrier.release(None);

    assert_eq!(barrier.poll(&waker), Some(Message { data: false }));
    assert_eq!(Message { data: false }, barrier.value());
}

#[test]
fn multiple_receivers() {
    let (first, waker) = counter();
    let (second, second_waker) = counter();
    let mut barrier: BarrierInner<Message> = BarrierInner::new();
    assert_eq!(barrier.poll(&waker), None);
    assert_eq!(barrier.poll(&second_waker), None);
    assert_eq!(barrier.poll(&second_waker), None);
    assert_eq!((woken(&first), woken(&second)), (0, 0));

    barrier.release(None);
    // every registration is woken, once
    assert_eq!((woken(&first), woken(&second)), (1, 2));

    // every receiver, and every later poll of one, gets the same value
    assert_eq!(Some(Message { data: false }), barrier.poll(&waker));
    assert_eq!(Some(Message { data: false }), barrier.poll(&waker));
    assert_eq!(Some(Message { data: false }), barrier.poll(&waker));
}

#[test]
fn drop_after_release_keeps_the_released_value() {
    let (count, waker) = counter();
    let mut barrier = BarrierInner::new();
    assert_eq!(barrier.poll(&waker), None);
    barrier.release(Some(Message { data: true }));
    assert_eq!(woken(&count), 1);
    // the sender is dropped after it was released: nobody waits any more
    barrier.release(None);
    assert_eq!(woken(&count), 1);
    assert!(barrier.is_released());
    assert_eq!(barrier.poll(&waker), Some(Message { data: true }));
    assert_eq!(woken(&count), 1);
}

#[test]
fn a_later_value_replaces_an_earlier_one() {
    let (_, waker) = counter();
    let mut barrier = BarrierInner::new();
    barrier.release(Some(3u32));
    barrier.release(Some(4u32));
    assert_eq!(barrier.poll(&waker), Some(4));
}

#[test]
fn barrier_value_stores_and_retrieves() {
    let mut value: BarrierValue<u32> = BarrierValue::new();
    assert_eq!(value.retrieve(), None);
    value.store(None);
    assert_eq!(value.retrieve(), None);
    value.store(Some(7));
    assert_eq!(value.retrieve(), Some(7));
    value.store(None);
    assert_eq!(value.retrieve(), Some(7));
    value.store(Some(8));
    assert_eq!(value.retrieve(), Some(8));
}

/// Writes its name to a log when it is woken.
struct Named {
    name: u32,
    log: Arc<std::sync::Mutex<Vec<u32>>>,
}

impl ArcWake for Named {
    fn wake_by_ref(arc_self: &Arc<Self>) {
        arc_self.log.lock().unwrap().push(arc_self.name);
    }
}

#[test]
fn a_release_wakes_the_receivers_that_wait_the_last_one_first() {
    let log = Arc::new(std::sync::Mutex::new(Vec::new()));
    let wakers: Vec<Waker> =
        (1..=3).map(|name| waker(Arc::new(Named { name, log: log.clone() }))).collect();

    let mut barrier: BarrierInner<u32> = BarrierInner::new();
    // a release for which nobody waits wakes nobody
    barrier.release(None);
    assert!(log.lock().unwrap().is_empty());

    let mut barrier: BarrierInner<u32> = BarrierInner::new();
    for waker in wakers.iter() {
        assert_eq!(barrier.poll(waker), None);
    }
    assert!(log.lock().unwrap().is_empty());

    barrier.release(Some(9));
    assert_eq!(*log.lock().unwrap(), vec![3, 2, 1]);

    // nobody is left to wait: a later release wakes nobody, and a poll registers nobody
    assert_eq!(barrier.poll(&wakers[0]), Some(9));
    barrier.release(None);
    assert_eq!(*log.lock().unwrap(), vec![3, 2, 1]);
}
