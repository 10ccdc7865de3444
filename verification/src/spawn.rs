//! The cancellation cell that a spawned task shares with the lifeline that was returned for
//! it. Whoever owns the cell applies these transitions one at a time.
use vstd::prelude::*;
use vstd::string::*;
use crate::error::{short_name, shortened};
use futures_util::task::AtomicWaker;
use std::task::Waker;

verus! {

/// `futures_util::task::AtomicWaker`, the place where one waker is registered. What it
/// holds is not seen here.
#[verifier::external_type_specification]
#[verifier::external_body]
pub struct ExAtomicWaker(futures_util::task::AtomicWaker);

/// `std::task::Waker`, the handle by which an executor is told to schedule a task again.
#[verifier::external_type_specification]
#[verifier::external_body]
pub struct ExWaker(std::task::Waker);

/// `futures_util::task::AtomicWaker::new`: a place for one waker, with none registered.
/// Nothing is claimed of it.
#[verifier::external_body]
fn unregistered() -> AtomicWaker {
    AtomicWaker::new()
}

/// `futures_util::task::AtomicWaker::register`: `waker` takes the place of the waker that
/// was registered with `place` before. Nothing is claimed of it.
#[verifier::external_body]
fn register(place: &AtomicWaker, waker: &Waker) {
    place.register(waker)
}

/// `futures_util::task::AtomicWaker::wake`: the waker that is registered with `place` is
/// taken out and woken; without one, nothing happens. Nothing is claimed of it.
#[verifier::external_body]
fn wake(place: &AtomicWaker) {
    place.wake()
}

/// The registrations that a transition has woken.
#[derive(Clone, Copy, Debug, PartialEq, Eq, Structural)]
pub struct Wake {
    /// The task was woken, so that it is scheduled again and observes the cell.
    pub task: bool,
    /// Whoever awaits the lifeline was woken.
    pub lifeline: bool,
}

/// What the task does at the start of a scheduling step.
#[derive(Clone, Copy, Debug, PartialEq, Eq, Structural)]
pub enum Step {
    /// The cell is complete: stop, without polling the work again.
    Cancel,
    /// Poll the work.
    PollFuture,
}

/// The result of a scheduling step.
#[derive(Clone, Copy, Debug, PartialEq, Eq, Structural)]
pub enum Progress {
    /// The task has ended, by finishing or by cancellation.
    Ready,
    /// The task is suspended, and registered to be woken.
    Pending,
}

/// The state of a cancellation cell.
pub struct LifelineState {
    /// The task has finished or was cancelled. This is terminal.
    pub complete: bool,
    /// The task is suspended and has registered to be woken.
    pub task_waiting: bool,
    /// Someone awaits the lifeline and has registered to be woken.
    pub lifeline_waiting: bool,
}

impl LifelineState {
    /// The state of a task that was just spawned.
    pub open spec fn running() -> Self {
        LifelineState { complete: false, task_waiting: false, lifeline_waiting: false }
    }

    /// The state in which the task has ended and nothing is left to wake.
    pub open spec fn completed() -> Self {
        LifelineState { complete: true, task_waiting: false, lifeline_waiting: false }
    }

    /// The registrations of this state.
    pub open spec fn registered(self) -> Wake {
        Wake { task: self.task_waiting, lifeline: self.lifeline_waiting }
    }

    /// The state after the lifeline has been dropped.
    pub open spec fn after_abort(self) -> Self {
        Self::completed()
    }

    /// What the task does at the start of a scheduling step.
    pub open spec fn step(self) -> Step {
        if self.complete {
            Step::Cancel
        } else {
            Step::PollFuture
        }
    }

    /// The state after the task has polled its work, which `finished` or did not.
    pub open spec fn after_poll(self, finished: bool) -> Self {
        if finished {
            Self::completed()
        } else if self.complete {
            self
        } else {
            LifelineState { task_waiting: true, ..self }
        }
    }

    /// The result of the scheduling step in which the work `finished` or did not.
    pub open spec fn progress(self, finished: bool) -> Progress {
        if finished || self.complete {
            Progress::Ready
        } else {
            Progress::Pending
        }
    }

    /// The state after the lifeline has been polled.
    pub open spec fn after_await(self) -> Self {
        if self.complete {
            self
        } else {
            LifelineState { lifeline_waiting: true, ..self }
        }
    }
}

/// The cancellation cell of one spawned task: whether the task has ended, and the wakers of
/// the task and of whoever awaits its lifeline.
#[derive(Debug)]
pub struct LifelineInner {
    complete: bool,
    task_waiting: bool,
    lifeline_waiting: bool,
    task_waker: AtomicWaker,
    lifeline_waker: AtomicWaker,
}

impl View for LifelineInner {
    type V = LifelineState;

    closed spec fn view(&self) -> LifelineState {
        LifelineState {
            complete: self.complete,
            task_waiting: self.task_waiting,
            lifeline_waiting: self.lifeline_waiting,
        }
    }
}

impl LifelineInner {
    /// The cell of a task that was just spawned.
    pub fn new() -> (inner: Self)
        ensures
            inner@ == LifelineState::running(),
    {
        LifelineInner {
            complete: false,
            task_waiting: false,
            lifeline_waiting: false,
            task_waker: unregistered(),
            lifeline_waker: unregistered(),
        }
    }

    /// Whether the task has finished or was cancelled.
    pub fn is_complete(&self) -> (complete: bool)
        ensures
            complete == self@.complete,
    {
        self.complete
    }

    /// Wakes the registrations that `woken` names.
    fn notify(&self, woken: Wake) {
        if woken.task {
            wake(&self.task_waker);
        }
        if woken.lifeline {
            wake(&self.lifeline_waker);
        }
    }

    /// Cancels the task, when its lifeline is dropped: the cell is complete from now on, and
    /// what was registered is woken.
    pub fn abort(&mut self) -> (wake: Wake)
        ensures
            final(self)@ == old(self)@.after_abort(),
            wake == old(self)@.registered(),
    {
        let wake = Wake { task: self.task_waiting, lifeline: self.lifeline_waiting };
        self.complete = true;
        self.task_waiting = false;
        self.lifeline_waiting = false;
        self.notify(wake);
        wake
    }

    /// Starts a scheduling step of the task: a complete cell stops it before the work is
    /// polled.
    pub fn begin_poll(&self) -> (step: Step)
        ensures
            step == self@.step(),
    {
        if self.complete {
            Step::Cancel
        } else {
            Step::PollFuture
        }
    }

    /// Ends the scheduling step in which the task polled its work. Work that `finished`
    /// completes the cell and wakes whoever awaits the lifeline. Otherwise the task ends if
    /// it was cancelled in the meantime, and else registers `waker` to be woken.
    pub fn end_poll(&mut self, finished: bool, waker: &Waker) -> (out: (Progress, Wake))
        ensures
            final(self)@ == old(self)@.after_poll(finished),
            out.0 == old(self)@.progress(finished),
            out.1 == if finished {
                Wake { task: false, lifeline: old(self)@.lifeline_waiting }
            } else {
                Wake { task: false, lifeline: false }
            },
    {
        if finished {
            let wake = Wake { task: false, lifeline: self.lifeline_waiting };
            self.complete = true;
            self.task_waiting = false;
            self.lifeline_waiting = false;
            self.notify(wake);
            (Progress::Ready, wake)
        } else if self.complete {
            (Progress::Ready, Wake { task: false, lifeline: false })
        } else {
            self.task_waiting = true;
            register(&self.task_waker, waker);
            (Progress::Pending, Wake { task: false, lifeline: false })
        }
    }

    /// Polls the lifeline: it is ready once the task has ended, and else `waker`, of whoever
    /// awaits it, is registered to be woken.
    pub fn poll_lifeline(&mut self, waker: &Waker) -> (progress: Progress)
        ensures
            final(self)@ == old(self)@.after_await(),
            progress == if old(self)@.complete {
                Progress::Ready
            } else {
                Progress::Pending
            },
    {
        if self.complete {
            Progress::Ready
        } else {
            self.lifeline_waiting = true;
            register(&self.lifeline_waker, waker);
            Progress::Pending
        }
    }
}

/// Cancellation is prompt: when the lifeline of a suspended task is dropped, the task is
/// woken, and at its next scheduling step it stops without polling its work again.
pub proof fn lemma_cancellation_is_prompt(state: LifelineState)
    requires
        !state.complete,
        state.task_waiting,
    ensures
        state.registered().task,
        state.after_abort().complete,
        state.after_abort().step() == Step::Cancel,
        forall|finished: bool| #[trigger]
            state.after_abort().progress(finished) == Progress::Ready,
{
}

/// Completion is terminal: once the cell is complete, whether the work finished or the
/// lifeline was dropped, every transition leaves it complete, every later step of the task
/// stops without polling the work, and the step is ready.
pub proof fn lemma_completion_is_terminal(state: LifelineState, finished: bool)
    requires
        state.complete,
    ensures
        state.step() == Step::Cancel,
        state.progress(finished) == Progress::Ready,
        state.after_poll(finished).complete,
        state.after_await() == state,
        state.after_abort().complete,
{
}

/// The text of a task name: the short name of the service, a slash, and the task's own name.
pub open spec fn task_name_text(service: Seq<char>, name: Seq<char>) -> Seq<char> {
    shortened(service) + "/"@ + name
}

/// Names the task `name` of the service whose full type name is `service`.
pub fn task_name(service: &str, name: &str) -> (out: String)
    ensures
        out@ == task_name_text(service@, name@),
{
    short_name(service).concat("/").concat(name)
}

} // verus!
