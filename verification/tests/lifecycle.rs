use futures::task::{waker, ArcWake};
use lifeline::spawn::{task_name, LifelineInner, Progress, Step, Wake};
use std::sync::atomic::{AtomicUsize, Ordering};
use std::sync::Arc;
use std::task::Waker;

const NONE: Wake = Wake { task: false, lifeline: false };

/// Counts how often it is woken.
struct Count(AtomicUsize);

impl ArcWake for Count {
    fn wake_by_ref(arc_self: &Arc<Self>) {
        arc_self.0.fetch_add(1, Ordering::SeqCst);
    }
}

fn counter() -> (Arc<Count>, Waker) {
    let count = Arc::new(Count(AtomicUsize::new(0)));
    (count.clone(), waker(count))
}

fn woken(count: &Arc<Count>) -> usize {
    count.0.load(Ordering::SeqCst)
}

#[test]
fn a_new_task_is_running() {
    let inner = LifelineInner::new();
    assert!(!inner.is_complete());
    assert_eq!(inner.begin_poll(), Step::PollFuture);
}

#[test]
fn dropping_the_lifeline_of_a_waiting_task_cancels_it_within_one_step() {
    // a task that receives forever on a channel on which nothing is ever sent
    let (task, task_waker) = counter();
    let mut inner = LifelineInner::new();
    for _ in 0..3 {
        assert_eq!(inner.begin_poll(), Step::PollFuture);
        assert_eq!(inner.end_poll(false, &task_waker), (Progress::Pending, NONE));
    }
    assert_eq!(woken(&task), 0);

    // the lifeline is dropped: the task is woken, once
    assert_eq!(inner.abort(), Wake { task: true, lifeline: false });
    assert!(inner.is_complete());
    assert_eq!(woken(&task), 1);

    // at its next step the task stops, and the work is not polled again
    assert_eq!(inner.begin_poll(), Step::Cancel);
    let (observer, observer_waker) = counter();
    assert_eq!(inner.poll_lifeline(&observer_waker), Progress::Ready);
    assert_eq!(woken(&observer), 0);
    assert_eq!(woken(&task), 1);
}

#[test]
fn a_task_that_finishes_wakes_whoever_awaits_its_lifeline() {
    let (task, task_waker) = counter();
    let (observer, observer_waker) = counter();
    let mut inner = LifelineInner::new();
    assert_eq!(inner.poll_lifeline(&observer_waker), Progress::Pending);
    assert_eq!(inner.begin_poll(), Step::PollFuture);
    assert_eq!(inner.end_poll(false, &task_waker), (Progress::Pending, NONE));
    assert_eq!(inner.poll_lifeline(&observer_waker), Progress::Pending);
    assert_eq!(woken(&observer), 0);

    assert_eq!(inner.begin_poll(), Step::PollFuture);
    assert_eq!(
        inner.end_poll(true, &task_waker),
        (Progress::Ready, Wake { task: false, lifeline: true })
    );
    assert!(inner.is_complete());
    assert_eq!(woken(&observer), 1);
    // the task that has just ended is not woken
    assert_eq!(woken(&task), 0);
    assert_eq!(inner.poll_lifeline(&observer_waker), Progress::Ready);
}

#[test]
fn the_waker_that_was_registered_last_is_the_one_that_is_woken() {
    let (first, first_waker) = counter();
    let (second, second_waker) = counter();
    let mut inner = LifelineInner::new();
    assert_eq!(inner.end_poll(false, &first_waker), (Progress::Pending, NONE));
    assert_eq!(inner.end_poll(false, &second_waker), (Progress::Pending, NONE));
    assert_eq!(inner.abort(), Wake { task: true, lifeline: false });
    assert_eq!((woken(&first), woken(&second)), (0, 1));
}

#[test]
fn a_task_that_finishes_unobserved_wakes_nobody() {
    let (task, task_waker) = counter();
    let mut inner = LifelineInner::new();
    assert_eq!(inner.begin_poll(), Step::PollFuture);
    assert_eq!(inner.end_poll(true, &task_waker), (Progress::Ready, NONE));
    assert!(inner.is_complete());
    assert_eq!(woken(&task), 0);
}

#[test]
fn cancellation_between_the_check_and_the_registration_is_observed() {
    let (task, task_waker) = counter();
    let mut inner = LifelineInner::new();
    assert_eq!(inner.begin_poll(), Step::PollFuture);
    // the lifeline is dropped while the work is polled
    assert_eq!(inner.abort(), NONE);
    assert_eq!(inner.end_poll(false, &task_waker), (Progress::Ready, NONE));
    assert_eq!(woken(&task), 0);
}

#[test]
fn completion_is_terminal() {
    let (task, task_waker) = counter();
    let (observer, observer_waker) = counter();
    let mut inner = LifelineInner::new();
    assert_eq!(inner.poll_lifeline(&observer_waker), Progress::Pending);
    assert_eq!(inner.abort(), Wake { task: false, lifeline: true });
    assert_eq!(woken(&observer), 1);

    // everything after is ready, wakes nobody, and leaves the cell complete
    assert_eq!(inner.abort(), NONE);
    assert_eq!(inner.begin_poll(), Step::Cancel);
    assert_eq!(inner.end_poll(false, &task_waker), (Progress::Ready, NONE));
    assert_eq!(inner.end_poll(true, &task_waker), (Progress::Ready, NONE));
    assert_eq!(inner.poll_lifeline(&observer_waker), Progress::Ready);
    assert_eq!(inner.abort(), NONE);
    assert!(inner.is_complete());
    assert_eq!((woken(&task), woken(&observer)), (0, 1));
}

#[test]
fn task_name_joins_the_short_service_name_and_the_task() {
    assert_eq!(task_name("app::services::ExampleService", "run"), "ExampleService/run");
    assert_eq!(task_name("ExampleService", "forward_shutdown"), "ExampleService/forward_shutdown");
    assert_eq!(task_name("app::Service", ""), "Service/");
    // the task's own name is kept as it is
    assert_eq!(task_name("app::Service", "net::accept"), "Service/net::accept");
}
