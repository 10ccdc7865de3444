//! The cell behind a barrier channel: a sender that is released once, with or without a
//! value, and receivers that are ready from then on.
use vstd::prelude::*;
use lockfree::stack::Stack;
use std::task::Waker;

verus! {

/// `lockfree::stack::Stack`, a stack of values. The stack itself works through shared
/// references; here it is only ever changed through an exclusive one, so that what it
/// holds can be spoken of.
#[verifier::external_type_specification]
#[verifier::external_body]
#[verifier::reject_recursive_types(T)]
pub struct ExStack<T>(lockfree::stack::Stack<T>);

/// The wakers that a `lockfree::stack::Stack` holds, from the bottom to the top.
pub uninterp spec fn stack_wakers(stack: Stack<Waker>) -> Seq<Waker>;

/// `lockfree::stack::Stack::new`: the contract claims that the new stack holds nothing.
#[verifier::external_body]
fn empty_stack() -> (stack: Stack<Waker>)
    ensures
        stack_wakers(stack) == Seq::<Waker>::empty(),
{
    Stack::new()
}

/// `std::clone::Clone::clone` of a `std::task::Waker`: another handle on the same task.
/// Nothing is claimed of it.
#[verifier::external_body]
fn clone_waker(waker: &Waker) -> Waker {
    waker.clone()
}

/// `lockfree::stack::Stack::push`: the contract claims that `waker` is put on the top of
/// the stack, and that what was on it stays below.
#[verifier::external_body]
fn push(stack: &mut Stack<Waker>, waker: Waker)
    ensures
        stack_wakers(*final(stack)) == stack_wakers(*old(stack)).push(waker),
{
    stack.push(waker)
}

/// `lockfree::stack::Stack::pop_iter`, run to its end: the contract claims that everything
/// is popped, the top first, and that the stack is left empty.
#[verifier::external_body]
fn pop_all(stack: &mut Stack<Waker>) -> (out: Vec<Waker>)
    ensures
        out@ == stack_wakers(*old(stack)).reverse(),
        stack_wakers(*final(stack)) == Seq::<Waker>::empty(),
{
    stack.pop_iter().collect()
}

/// `std::task::Waker::wake_by_ref`: tells the executor to schedule the task of `waker`.
/// Nothing is claimed of it.
#[verifier::external_body]
fn wake_by_ref(waker: &Waker) {
    waker.wake_by_ref()
}

/// The wakers of the receivers that wait for a barrier.
#[derive(Debug)]
struct BarrierWaker {
    wakers: Stack<Waker>,
}

impl View for BarrierWaker {
    type V = Seq<Waker>;

    /// The wakers of the receivers that wait, the one that was registered last at the end.
    closed spec fn view(&self) -> Seq<Waker> {
        stack_wakers(self.wakers)
    }
}

impl BarrierWaker {
    /// No receiver waits.
    fn new() -> (waker: Self)
        ensures
            waker@ == Seq::<Waker>::empty(),
    {
        BarrierWaker { wakers: empty_stack() }
    }

    /// Adds a receiver that waits: a clone of `waker` is registered after the others.
    fn register(&mut self, waker: &Waker)
        ensures
            final(self)@.len() == old(self)@.len() + 1,
            final(self)@.drop_last() == old(self)@,
    {
        let copy = clone_waker(waker);
        push(&mut self.wakers, copy);
        assert(self@.drop_last() =~= old(self)@);
    }

    /// Wakes every receiver that waits. None of them waits after that.
    fn wake(&mut self)
        ensures
            final(self)@ == Seq::<Waker>::empty(),
    {
        let wakers = pop_all(&mut self.wakers);
        let mut i: usize = 0;
        while i < wakers.len()
            invariant
                i <= wakers.len(),
            decreases wakers.len() - i,
        {
            wake_by_ref(&wakers[i]);
            i += 1;
        }
    }
}

/// The value that a barrier was released with.
#[derive(Debug)]
pub struct BarrierValue<T> {
    slot: Option<T>,
}

impl<T> View for BarrierValue<T> {
    type V = Option<T>;

    closed spec fn view(&self) -> Option<T> {
        self.slot
    }
}

/// What is stored after `value` arrives where `stored` was: a value replaces what was
/// there, and the lack of one leaves it.
pub open spec fn merged<T>(stored: Option<T>, value: Option<T>) -> Option<T> {
    if value is None {
        stored
    } else {
        value
    }
}

impl<T> BarrierValue<T> {
    /// No value.
    pub fn new() -> (value: Self)
        ensures
            value@ is None,
    {
        BarrierValue { slot: None }
    }

    /// Stores `value`. A release without a value does not erase one that was given before.
    pub fn store(&mut self, value: Option<T>)
        ensures
            final(self)@ == merged(old(self)@, value),
    {
        if value.is_none() && self.slot.is_some() {
            return ;
        }
        self.slot = value;
    }

    /// A copy of the stored value.
    pub fn retrieve(&self) -> (out: Option<T>) where T: Clone
        ensures
            match (self@, out) {
                (Some(value), Some(copy)) => cloned(value, copy),
                (None, None) => true,
                _ => false,
            },
    {
        match &self.slot {
            Some(value) => Some(value.clone()),
            None => None,
        }
    }
}

/// The state of a barrier.
pub struct BarrierState<T> {
    /// The sender was released or dropped. This is terminal.
    pub released: bool,
    /// The value that the sender was released with.
    pub value: Option<T>,
    /// How many wakers of receivers are registered, to be woken by the next release.
    pub waiting: nat,
}

impl<T> BarrierState<T> {
    /// The state after the sender is released with `value`, or dropped without one: every
    /// receiver that waited was woken, and none waits.
    pub open spec fn after_release(self, value: Option<T>) -> Self {
        BarrierState { released: true, value: merged(self.value, value), waiting: 0 }
    }

    /// The state after a receiver was polled: before the release its waker is registered,
    /// and after it nothing changes.
    pub open spec fn after_poll(self) -> Self {
        if self.released {
            self
        } else {
            BarrierState { waiting: self.waiting + 1, ..self }
        }
    }
}

/// A release is final: once the sender was released or dropped, the barrier stays released
/// whatever follows, so that every receiver is ready from then on and none is left to
/// wait; and a sender that is dropped after it was released leaves the value that it was
/// released with.
pub proof fn lemma_release_is_final<T>(state: BarrierState<T>, first: Option<T>, later: Option<T>)
    ensures
        state.after_release(first).released,
        state.after_release(first).after_release(later).released,
        state.after_release(first).after_poll() == state.after_release(first),
        first is Some ==> state.after_release(first).after_release(None).value == first,
{
}

/// The cell that the sender of a barrier shares with its receivers.
#[derive(Debug)]
pub struct BarrierInner<T> {
    released: bool,
    waker: BarrierWaker,
    value: BarrierValue<T>,
}

impl<T> View for BarrierInner<T> {
    type V = BarrierState<T>;

    closed spec fn view(&self) -> BarrierState<T> {
        BarrierState { released: self.released, value: self.value@, waiting: self.waker@.len() }
    }
}

impl<T> BarrierInner<T> {
    /// The cell of a barrier that was not released, and for which no receiver waits.
    pub fn new() -> (inner: Self)
        ensures
            !inner@.released,
            inner@.value is None,
            inner@.waiting == 0,
    {
        BarrierInner { released: false, waker: BarrierWaker::new(), value: BarrierValue::new() }
    }

    /// Whether the sender was released or dropped.
    pub fn is_released(&self) -> (released: bool)
        ensures
            released == self@.released,
    {
        self.released
    }

    /// What a receiver gets: a copy of the value that was released, or the default value if
    /// the sender was dropped without one.
    pub fn value(&self) -> (out: T) where T: Clone + Default
        ensures
            match self@.value {
                Some(value) => cloned(value, out),
                None => call_ensures(T::default, (), out),
            },
    {
        match self.value.retrieve() {
            Some(value) => value,
            None => T::default(),
        }
    }

    /// Releases the barrier, with the value that was sent or, when the sender is dropped,
    /// without one. Every receiver that waits is woken, and none waits after that.
    pub fn release(&mut self, value: Option<T>)
        ensures
            final(self)@ == old(self)@.after_release(value),
    {
        self.value.store(value);
        self.released = true;
        self.waker.wake();
    }

    /// Polls a receiver: once the barrier is released it is ready, with the value of
    /// [`BarrierInner::value`]; before that, `waker` is registered to be woken by the
    /// release.
    pub fn poll(&mut self, waker: &Waker) -> (out: Option<T>) where T: Clone + Default
        ensures
            final(self)@ == old(self)@.after_poll(),
            out is Some <==> old(self)@.released,
            out matches Some(received) ==> match old(self)@.value {
                Some(value) => cloned(value, received),
                None => call_ensures(T::default, (), received),
            },
    {
        if self.released {
            Some(self.value())
        } else {
            self.waker.register(waker);
            None
        }
    }
}

} // verus!
