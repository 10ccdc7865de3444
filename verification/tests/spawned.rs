use futures::channel::mpsc;
use futures::executor::LocalPool;
use futures::task::LocalSpawnExt;
use futures::StreamExt;
use lifeline::spawn::{LifelineInner, Progress, Step};
use std::cell::{Cell, RefCell};
use std::future::Future;
use std::pin::Pin;
use std::rc::Rc;
use std::task::{Context, Poll};

/// The cancellation cell of one task, and how often its work was polled.
struct Shared {
    cell: RefCell<LifelineInner>,
    polls: Cell<usize>,
}

/// The task: the work, stopped as soon as the cell says so.
struct Spawned<F> {
    work: Pin<Box<F>>,
    shared: Rc<Shared>,
}

impl<F: Future> Future for Spawned<F> {
    type Output = ();

    fn poll(mut self: Pin<&mut Self>, cx: &mut Context<'_>) -> Poll<()> {
        if self.shared.cell.borrow().begin_poll() == Step::Cancel {
            return Poll::Ready(());
        }
        self.shared.polls.set(self.shared.polls.get() + 1);
        let finished = self.work.as_mut().poll(cx).is_ready();
        let (progress, _) = self.shared.cell.borrow_mut().end_poll(finished, cx.waker());
        match progress {
            Progress::Ready => Poll::Ready(()),
            Progress::Pending => Poll::Pending,
        }
    }
}

/// The handle: dropping it cancels the task.
struct Handle {
    shared: Rc<Shared>,
}

impl Drop for Handle {
    fn drop(&mut self) {
        self.shared.cell.borrow_mut().abort();
    }
}

/// Waits for the task to end.
struct Ended {
    shared: Rc<Shared>,
}

impl Future for Ended {
    type Output = ();

    fn poll(self: Pin<&mut Self>, cx: &mut Context<'_>) -> Poll<()> {
        match self.shared.cell.borrow_mut().poll_lifeline(cx.waker()) {
            Progress::Ready => Poll::Ready(()),
            Progress::Pending => Poll::Pending,
        }
    }
}

fn spawn<F: Future + 'static>(pool: &LocalPool, work: F) -> (Handle, Rc<Shared>) {
    let shared = Rc::new(Shared {
        cell: RefCell::new(LifelineInner::new()),
        polls: Cell::new(0),
    });
    let task = Spawned { work: Box::pin(work), shared: shared.clone() };
    pool.spawner().spawn_local(task).unwrap();
    (Handle { shared: shared.clone() }, shared)
}

#[test]
fn a_task_that_receives_forever_ends_when_its_lifeline_is_dropped() {
    let mut pool = LocalPool::new();
    // a heartbeat on which nothing is ever sent; the sender stays alive
    let (_tx, mut rx) = mpsc::unbounded::<u32>();
    let (handle, shared) = spawn(&pool, async move {
        loop {
            rx.next().await;
        }
    });

    pool.run_until_stalled();
    assert_eq!(shared.polls.get(), 1);
    assert!(!shared.cell.borrow().is_complete());

    drop(handle);
    assert!(shared.cell.borrow().is_complete());

    // the task was woken: it runs one more step, in which the work is not polled, and ends
    pool.run();
    assert_eq!(shared.polls.get(), 1);
    assert!(!pool.try_run_one());
}

#[test]
fn the_end_of_a_cancelled_task_is_observed() {
    let mut pool = LocalPool::new();
    let (handle, shared) = spawn(&pool, futures::future::pending::<()>());
    let observed = Rc::new(Cell::new(false));
    let flag = observed.clone();
    let ended = Ended { shared: shared.clone() };
    pool.spawner()
        .spawn_local(async move {
            ended.await;
            flag.set(true);
        })
        .unwrap();

    pool.run_until_stalled();
    assert!(!observed.get());

    drop(handle);
    pool.run();
    assert!(observed.get());
}

#[test]
fn the_end_of_a_finished_task_is_observed() {
    let mut pool = LocalPool::new();
    let (tx, mut rx) = mpsc::unbounded::<u32>();
    let received = Rc::new(RefCell::new(Vec::new()));
    let log = received.clone();
    let (_handle, shared) = spawn(&pool, async move {
        while let Some(n) = rx.next().await {
            log.borrow_mut().push(n);
        }
    });
    let observed = Rc::new(Cell::new(false));
    let flag = observed.clone();
    let ended = Ended { shared: shared.clone() };
    pool.spawner()
        .spawn_local(async move {
            ended.await;
            flag.set(true);
        })
        .unwrap();

    tx.unbounded_send(1).unwrap();
    tx.unbounded_send(2).unwrap();
    pool.run_until_stalled();
    assert_eq!(*received.borrow(), vec![1, 2]);
    assert!(!observed.get());

    // the channel closes: the task winds down by itself, and whoever waits is woken
    drop(tx);
    pool.run();
    assert!(observed.get());
    assert!(shared.cell.borrow().is_complete());
    assert_eq!(*received.borrow(), vec![1, 2]);
}
